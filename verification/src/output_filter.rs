//! Finding an output by what is known of it.

use crate::outputs::Output;
use crate::outputs::OutputModel;
use crate::outputs::SwayOutputs;
use crate::text::contains;
use crate::text::contains_text;
use vstd::prelude::*;

verus! {

/// What an output must hold to be the one that is looked for. Each part that
/// is set must occur in the field of the same name, letter for letter.
#[derive(Clone, Copy, Debug)]
pub struct OutputFilter {
    name_regex: Option<&'static str>,
    model_regex: Option<&'static str>,
    make_regex: Option<&'static str>,
    serial_regex: Option<&'static str>,
}

/// An [`OutputFilter`] with its texts as sequences.
pub struct OutputFilterModel {
    pub name_regex: Option<Seq<char>>,
    pub model_regex: Option<Seq<char>>,
    pub make_regex: Option<Seq<char>>,
    pub serial_regex: Option<Seq<char>>,
}

/// The text of a part of a filter, where it is set.
pub open spec fn part_text(part: Option<&'static str>) -> Option<Seq<char>> {
    match part {
        Some(text) => Some(text@),
        None => None,
    }
}

impl View for OutputFilter {
    type V = OutputFilterModel;

    closed spec fn view(&self) -> OutputFilterModel {
        OutputFilterModel {
            name_regex: part_text(self.name_regex),
            model_regex: part_text(self.model_regex),
            make_regex: part_text(self.make_regex),
            serial_regex: part_text(self.serial_regex),
        }
    }
}

/// Whether `field` holds `part`, or `part` is not set.
pub open spec fn part_matches(part: Option<Seq<char>>, field: Seq<char>) -> bool {
    match part {
        Some(text) => contains_text(field, text),
        None => true,
    }
}

/// Whether `output` holds every part of `filter` that is set.
pub open spec fn matches_filter(output: OutputModel, filter: OutputFilterModel) -> bool {
    &&& part_matches(filter.model_regex, output.model)
    &&& part_matches(filter.make_regex, output.make)
    &&& part_matches(filter.name_regex, output.name)
    &&& part_matches(filter.serial_regex, output.serial)
}

/// The first of `outputs` that is there, if any is.
pub open spec fn first_some<T>(outputs: Seq<Option<T>>) -> Option<T>
    decreases outputs.len(),
{
    if outputs.len() == 0 {
        None
    } else if outputs[0] is Some {
        outputs[0]
    } else {
        first_some(outputs.drop_first())
    }
}

/// With one more at the end, the first that is there is still the first of
/// those before, or else the new one.
pub proof fn lemma_first_some_push<T>(outputs: Seq<Option<T>>, last: Option<T>)
    ensures
        first_some(outputs.push(last)) == if first_some(outputs) is Some {
            first_some(outputs)
        } else {
            last
        },
    decreases outputs.len(),
{
    let all = outputs.push(last);
    reveal_with_fuel(first_some, 2);
    if outputs.len() == 0 {
        assert(all.drop_first() =~= Seq::<Option<T>>::empty());
    } else {
        assert(all.drop_first() =~= outputs.drop_first().push(last));
        lemma_first_some_push(outputs.drop_first(), last);
    }
}

/// The first of `outputs` that is there, if any is.
pub fn any_of<T>(outputs: Vec<Option<T>>) -> (found: Option<T>)
    ensures
        found == first_some(outputs@),
{
    let mut rest = outputs;
    let mut found: Option<T> = None;
    assert(rest@.push(found) =~= outputs@.push(None));
    proof {
        lemma_first_some_push(outputs@, None);
    }
    while rest.len() > 0
        invariant
            first_some(rest@.push(found)) == first_some(outputs@),
        decreases rest.len(),
    {
        let ghost before = rest@;
        let ghost earlier = found;
        let last = rest.pop().unwrap();
        proof {
            assert(before =~= rest@.push(last));
            lemma_first_some_push(before, earlier);
            lemma_first_some_push(rest@, last);
        }
        if last.is_some() {
            found = last;
        }
        proof {
            lemma_first_some_push(rest@, found);
        }
    }
    proof {
        lemma_first_some_push(rest@, found);
    }
    found
}

fn part_holds(part: Option<&'static str>, field: &str) -> (holds: bool)
    ensures
        holds == part_matches(part_text(part), field@),
{
    match part {
        Some(text) => contains(field, text),
        None => true,
    }
}

impl OutputFilter {
    /// A filter that every output passes.
    pub fn new() -> (filter: Self)
        ensures
            filter@ == (OutputFilterModel {
                name_regex: None,
                model_regex: None,
                make_regex: None,
                serial_regex: None,
            }),
    {
        Self { name_regex: None, model_regex: None, make_regex: None, serial_regex: None }
    }

    /// The filter with this text required in the name.
    pub fn name_regex(self, name_regex: &'static str) -> (filter: Self)
        ensures
            filter@ == (OutputFilterModel { name_regex: Some(name_regex@), ..self@ }),
    {
        let mut filter = self;
        filter.name_regex = Some(name_regex);
        filter
    }

    /// The filter with this text required in the model.
    pub fn model_regex(self, model_regex: &'static str) -> (filter: Self)
        ensures
            filter@ == (OutputFilterModel { model_regex: Some(model_regex@), ..self@ }),
    {
        let mut filter = self;
        filter.model_regex = Some(model_regex);
        filter
    }

    /// The filter with this text required in the make.
    pub fn make_regex(self, make_regex: &'static str) -> (filter: Self)
        ensures
            filter@ == (OutputFilterModel { make_regex: Some(make_regex@), ..self@ }),
    {
        let mut filter = self;
        filter.make_regex = Some(make_regex);
        filter
    }

    /// The filter with this text required in the serial number.
    pub fn serial_regex(self, serial_regex: &'static str) -> (filter: Self)
        ensures
            filter@ == (OutputFilterModel { serial_regex: Some(serial_regex@), ..self@ }),
    {
        let mut filter = self;
        filter.serial_regex = Some(serial_regex);
        filter
    }

    /// Whether `output` holds every part of the filter that is set.
    pub fn matches(&self, output: &Output) -> (holds: bool)
        ensures
            holds == matches_filter(output@, self@),
    {
        part_holds(self.model_regex, output.model.as_str()) && part_holds(
            self.make_regex,
            output.make.as_str(),
        ) && part_holds(self.name_regex, output.name.as_str()) && part_holds(
            self.serial_regex,
            output.serial.as_str(),
        )
    }
}

/// The first of `outputs` that passes `filter`, if any does.
pub fn find_output<'a>(outputs: &'a Vec<Output>, filter: OutputFilter) -> (found: Option<
    &'a Output,
>)
    ensures
        match found {
            Some(output) => exists|at: int|
                0 <= at < outputs@.len() && *output == #[trigger] outputs@[at] && matches_filter(
                    outputs@[at]@,
                    filter@,
                ) && forall|earlier: int|
                    0 <= earlier < at ==> !matches_filter(
                        (#[trigger] outputs@[earlier])@,
                        filter@,
                    ),
            None => forall|at: int|
                0 <= at < outputs@.len() ==> !matches_filter((#[trigger] outputs@[at])@, filter@),
        },
{
    let mut i: usize = 0;
    while i < outputs.len()
        invariant
            i <= outputs.len(),
            forall|earlier: int|
                0 <= earlier < i ==> !matches_filter((#[trigger] outputs@[earlier])@, filter@),
        decreases outputs.len() - i,
    {
        if filter.matches(&outputs[i]) {
            return Some(&outputs[i]);
        }
        i += 1;
    }
    None
}

impl SwayOutputs {
    /// The first output that passes `monitor_config`, if any does.
    pub fn find_monitor(&self, monitor_config: OutputFilter) -> (found: Option<&Output>)
        ensures
            match found {
                Some(output) => exists|at: int|
                    0 <= at < self.outputs().len() && *output == #[trigger] self.outputs()[at]
                        && matches_filter(self.outputs()[at]@, monitor_config@) && forall|
                        earlier: int,
                    |
                        0 <= earlier < at ==> !matches_filter(
                            (#[trigger] self.outputs()[earlier])@,
                            monitor_config@,
                        ),
                None => forall|at: int|
                    0 <= at < self.outputs().len() ==> !matches_filter(
                        (#[trigger] self.outputs()[at])@,
                        monitor_config@,
                    ),
            },
    {
        find_output(self.as_outputs(), monitor_config)
    }
}

} // verus!
