//! The error type: a message and, optionally, the error that caused it.

use vstd::prelude::*;
use vstd::string::*;

verus! {

/// A diagnostic message that may own the error it was caused by.
///
/// Its view is the chain of messages, outermost first; the chain is never
/// empty. A cause that is not itself an `ErrorMessage` enters the chain as a
/// leaf that holds its debug rendering and is marked as foreign.
#[derive(Debug)]
pub struct ErrorMessage {
    message: String,
    cause: Option<Box<ErrorMessage>>,
    foreign: bool,
}

/// The debug rendering of a text: between quotes, with what cannot stand
/// there as it is escaped.
pub uninterp spec fn quoted(text: Seq<char>) -> Seq<char>;

/// `Debug` of `str`, written out: the text between quotes, escaped. The same
/// text always gives the same rendering.
#[verifier::external_body]
fn quote(text: &str) -> (rendering: String)
    ensures
        rendering@ == quoted(text@),
{
    format!("{:?}", text)
}

/// How the debug rendering of an error with the message `message` begins.
pub open spec fn opening(message: Seq<char>) -> Seq<char> {
    "ErrorMessage { message: "@ + quoted(message) + ", cause: "@
}

/// The debug rendering of a chain where it stands as a cause: `None` for no
/// cause, the rendering of a foreign error inside `Some(..)`, and else the
/// message and, as its cause again, the rest of the chain. `foreign` says
/// whether the last of the chain is a foreign error.
pub open spec fn debug_cause(chain: Seq<Seq<char>>, foreign: bool) -> Seq<char>
    decreases chain.len(),
{
    if chain.len() == 0 {
        "None"@
    } else if chain.len() == 1 && foreign {
        "Some("@ + chain[0] + ")"@
    } else {
        opening(chain[0]) + debug_cause(chain.drop_first(), foreign) + " }"@
    }
}

/// The debug rendering of a chain: that of a foreign error is handed on as
/// it is, and every other error shows its message and its cause.
pub open spec fn debug_render(chain: Seq<Seq<char>>, foreign: bool) -> Seq<char> {
    if chain.len() == 0 {
        Seq::empty()
    } else if chain.len() == 1 && foreign {
        chain[0]
    } else {
        debug_cause(chain, foreign)
    }
}

/// The openings of the first `count` errors of a chain, one behind the other.
pub open spec fn openings(chain: Seq<Seq<char>>, count: int) -> Seq<char>
    decreases count,
{
    if count <= 0 {
        Seq::empty()
    } else {
        openings(chain, count - 1) + opening(chain[count - 1])
    }
}

/// As many closing brackets as `count` says.
pub open spec fn closings(count: int) -> Seq<char>
    decreases count,
{
    if count <= 0 {
        Seq::empty()
    } else {
        closings(count - 1) + " }"@
    }
}

/// The number of errors in a chain that show a message and a cause: all but
/// a foreign error at its end.
pub open spec fn shown(chain: Seq<Seq<char>>, foreign: bool) -> int {
    if foreign && chain.len() >= 1 {
        chain.len() - 1
    } else {
        chain.len() as int
    }
}

proof fn lemma_closings_commute(count: int)
    ensures
        " }"@ + closings(count) == closings(count) + " }"@,
    decreases count,
{
    if count <= 0 {
        assert(" }"@ + closings(count) =~= closings(count) + " }"@);
    } else {
        lemma_closings_commute(count - 1);
        assert(" }"@ + (closings(count - 1) + " }"@) =~= (" }"@ + closings(count - 1)) + " }"@);
    }
}

/// The rendering of a chain as a cause is the openings of its first errors,
/// the rendering of the rest, and as many closing brackets.
proof fn lemma_debug_unfold(chain: Seq<Seq<char>>, foreign: bool, count: int)
    requires
        0 <= count <= shown(chain, foreign),
    ensures
        debug_cause(chain, foreign) == openings(chain, count) + debug_cause(
            chain.skip(count),
            foreign,
        ) + closings(count),
    decreases count,
{
    if count == 0 {
        assert(chain.skip(0) =~= chain);
        assert(openings(chain, 0) + debug_cause(chain, foreign) + closings(0) =~= debug_cause(
            chain,
            foreign,
        ));
    } else {
        lemma_debug_unfold(chain, foreign, count - 1);
        lemma_closings_commute(count - 1);
        let rest = chain.skip(count - 1);
        assert(rest[0] == chain[count - 1]);
        assert(rest.drop_first() =~= chain.skip(count));
        let inner = debug_cause(chain.skip(count), foreign);
        assert(debug_cause(rest, foreign) == opening(chain[count - 1]) + inner + " }"@);
        assert(openings(chain, count - 1) + (opening(chain[count - 1]) + inner + " }"@)
            + closings(count - 1) =~= openings(chain, count) + inner + (" }"@ + closings(
            count - 1,
        )));
    }
}

/// What stands between two messages of a printed chain.
pub open spec fn caused_by() -> Seq<char> {
    "\n  caused by: "@
}

/// The printed form of a chain: the first message, then each further message
/// on a line of its own behind `  caused by: `.
pub open spec fn render(chain: Seq<Seq<char>>) -> Seq<char>
    decreases chain.len(),
{
    if chain.len() == 0 {
        Seq::empty()
    } else if chain.len() == 1 {
        chain[0]
    } else {
        render(chain.drop_last()) + caused_by() + chain.last()
    }
}

/// The chain that results from wrapping `chain` with `context`.
pub open spec fn wrap(chain: Seq<Seq<char>>, context: Seq<char>) -> Seq<Seq<char>> {
    seq![context] + chain
}

/// The chain that results from wrapping `chain` with each of `contexts` in
/// turn, the first of them innermost.
pub open spec fn wrap_all(chain: Seq<Seq<char>>, contexts: Seq<Seq<char>>) -> Seq<Seq<char>>
    decreases contexts.len(),
{
    if contexts.len() == 0 {
        chain
    } else {
        wrap(wrap_all(chain, contexts.drop_last()), contexts.last())
    }
}

/// A wrapped chain prints as the context, the separator and the chain.
pub proof fn lemma_render_wrap(chain: Seq<Seq<char>>, context: Seq<char>)
    requires
        chain.len() >= 1,
    ensures
        render(wrap(chain, context)) == context + caused_by() + render(chain),
    decreases chain.len(),
{
    let wrapped = wrap(chain, context);
    reveal_with_fuel(render, 2);
    if chain.len() == 1 {
        assert(wrapped.drop_last() =~= seq![context]);
        assert(wrapped.last() == chain[0]);
    } else {
        lemma_render_wrap(chain.drop_last(), context);
        assert(wrapped.drop_last() =~= wrap(chain.drop_last(), context));
        assert(wrapped.last() == chain.last());
        assert(render(wrapped) =~= context + caused_by() + render(chain));
    }
}

/// Wrapping an error first with `a` and then with `b` prints `b`, then `a`,
/// then the error itself, each cause on a line of its own.
pub proof fn law_two_contexts_display(error: Seq<Seq<char>>, a: Seq<char>, b: Seq<char>)
    requires
        error.len() >= 1,
    ensures
        render(wrap(wrap(error, a), b)) == b + caused_by() + a + caused_by() + render(error),
{
    lemma_render_wrap(error, a);
    lemma_render_wrap(wrap(error, a), b);
    assert(b + caused_by() + (a + caused_by() + render(error)) =~= b + caused_by() + a
        + caused_by() + render(error));
}

/// Each wrap adds one message: after `n` wraps the chain is `n` longer, the
/// contexts stand in front of it, last one first, and the error is unchanged
/// behind them.
pub proof fn law_wraps_extend_chain(error: Seq<Seq<char>>, contexts: Seq<Seq<char>>)
    ensures
        wrap_all(error, contexts).len() == contexts.len() + error.len(),
        wrap_all(error, contexts) == contexts.reverse() + error,
    decreases contexts.len(),
{
    if contexts.len() == 0 {
        assert(wrap_all(error, contexts) =~= contexts.reverse() + error);
    } else {
        law_wraps_extend_chain(error, contexts.drop_last());
        assert(wrap_all(error, contexts) =~= contexts.reverse() + error);
    }
}

/// What wrapping with each of `contexts` in turn puts in front of the
/// printed error: the contexts, last one first, each with the separator
/// behind it.
pub open spec fn contexts_text(contexts: Seq<Seq<char>>) -> Seq<char>
    decreases contexts.len(),
{
    if contexts.len() == 0 {
        Seq::empty()
    } else {
        contexts.last() + caused_by() + contexts_text(contexts.drop_last())
    }
}

/// An error wrapped `n` times prints as `n` contexts, the last one first and
/// each on a line of its own, and then the error as it printed before: one
/// message more for each wrap.
pub proof fn law_wraps_display(error: Seq<Seq<char>>, contexts: Seq<Seq<char>>)
    requires
        error.len() >= 1,
    ensures
        render(wrap_all(error, contexts)) == contexts_text(contexts) + render(error),
    decreases contexts.len(),
{
    if contexts.len() == 0 {
        assert(contexts_text(contexts) + render(error) =~= render(error));
    } else {
        let inner = wrap_all(error, contexts.drop_last());
        law_wraps_extend_chain(error, contexts.drop_last());
        law_wraps_display(error, contexts.drop_last());
        lemma_render_wrap(inner, contexts.last());
        assert(contexts.last() + caused_by() + (contexts_text(contexts.drop_last()) + render(
            error,
        )) =~= contexts_text(contexts) + render(error));
    }
}

impl View for ErrorMessage {
    type V = Seq<Seq<char>>;

    closed spec fn view(&self) -> Seq<Seq<char>> {
        self.chain()
    }
}

impl ErrorMessage {
    spec fn chain(&self) -> Seq<Seq<char>>
        decreases self,
    {
        match self.cause {
            Some(cause) => seq![self.message@] + cause.chain(),
            None => seq![self.message@],
        }
    }

    /// Whether the chain ends in a foreign error.
    pub closed spec fn ends_foreign(&self) -> bool
        decreases self,
    {
        match self.cause {
            Some(cause) => cause.ends_foreign(),
            None => self.foreign,
        }
    }

    /// An error without a cause.
    pub fn new(message: String) -> (e: ErrorMessage)
        ensures
            e@ == seq![message@],
            !e.ends_foreign(),
    {
        ErrorMessage { message, cause: None, foreign: false }
    }

    /// A failed result holding an error without a cause.
    pub fn err<T>(message: String) -> (r: Result<T, ErrorMessage>)
        ensures
            r is Err,
            r->Err_0@ == seq![message@],
            !r->Err_0.ends_foreign(),
    {
        Err(ErrorMessage { message, cause: None, foreign: false })
    }

    /// An error that is no chain of messages, by its debug rendering.
    pub fn foreign(rendering: String) -> (e: ErrorMessage)
        ensures
            e@ == seq![rendering@],
            e.ends_foreign(),
    {
        ErrorMessage { message: rendering, cause: None, foreign: true }
    }

    /// An error that owns `cause`: the chain of `cause` with `message` in front.
    pub fn with_context(message: String, cause: ErrorMessage) -> (e: ErrorMessage)
        ensures
            e@ == wrap(cause@, message@),
            e.ends_foreign() == cause.ends_foreign(),
    {
        ErrorMessage { message, cause: Some(Box::new(cause)), foreign: false }
    }

    /// The chain of an error holds at least its own message.
    pub proof fn lemma_chain_nonempty(&self)
        ensures
            self@.len() >= 1,
    {
    }

    /// The outermost message.
    pub fn message(&self) -> (m: &str)
        ensures
            m@ == self@[0],
    {
        self.message.as_str()
    }

    /// The error this one was caused by, if any.
    pub fn cause(&self) -> (c: Option<&ErrorMessage>)
        ensures
            c is Some <==> self@.len() > 1,
            c matches Some(inner) ==> inner@ == self@.drop_first() && inner.ends_foreign()
                == self.ends_foreign(),
    {
        match &self.cause {
            Some(inner) => {
                assert((seq![self.message@] + inner@).drop_first() =~= inner@);
                Some(&**inner)
            },
            None => None,
        }
    }

    /// Takes the error apart into its message and the error it was caused by,
    /// if any. A long chain can be taken apart link by link.
    pub fn into_parts(self) -> (parts: (String, Option<ErrorMessage>))
        ensures
            parts.0@ == self@[0],
            parts.1 is Some <==> self@.len() > 1,
            parts.1 matches Some(inner) ==> inner@ == self@.drop_first() && inner.ends_foreign()
                == self.ends_foreign(),
    {
        match self.cause {
            Some(inner) => {
                assert((seq![self.message@] + inner@).drop_first() =~= inner@);
                (self.message, Some(*inner))
            },
            None => (self.message, None),
        }
    }

    /// The debug rendering: the message, quoted, and the cause, which shows
    /// in the same way; the rendering of a foreign error stands inside
    /// `Some(..)`, and behind the last message stands `None`.
    pub fn to_debug_string(&self) -> (text: String)
        ensures
            text@ == debug_render(self@, self.ends_foreign()),
    {
        if self.foreign && self.cause.is_none() {
            return self.message.clone();
        }
        let mut text = String::new();
        fmt_debug(self, &mut text);
        proof {
            self.lemma_chain_nonempty();
            if let Some(cause) = &self.cause {
                cause.lemma_chain_nonempty();
            }
            assert(Seq::<char>::empty() + debug_cause(self@, self.ends_foreign())
                =~= debug_cause(self@, self.ends_foreign()));
        }
        text
    }

    /// The printed chain: the message, and behind it each cause on a line of
    /// its own.
    pub fn to_string(&self) -> (text: String)
        ensures
            text@ == render(self@),
    {
        let mut text = self.message.clone();
        match &self.cause {
            Some(cause) => {
                proof {
                    cause.lemma_chain_nonempty();
                    lemma_render_wrap(cause@, self.message@);
                }
                fmt_cause(cause, &mut text);
            },
            None => {
                assert(render(self@) == self.message@) by {
                    reveal_with_fuel(render, 2);
                }
            },
        }
        text
    }
}

/// Writes the debug rendering of `error` as a cause behind `f`. The chain is
/// walked in two loops, one for the openings and one for the closing
/// brackets, so its length is no limit.
fn fmt_debug(error: &ErrorMessage, f: &mut String)
    ensures
        final(f)@ == old(f)@ + debug_cause(error@, error.ends_foreign()),
{
    let ghost chain = error@;
    let ghost foreign = error.ends_foreign();
    let ghost mut count: int = 0;
    let mut cursor: Option<&ErrorMessage> = Some(error);
    let mut ends_in_foreign = false;
    proof {
        error.lemma_chain_nonempty();
        assert(chain.skip(0) =~= chain);
        assert(f@ + openings(chain, 0) =~= f@);
    }
    loop
        invariant
            0 <= count <= shown(chain, foreign),
            f@ == old(f)@ + openings(chain, count),
            match cursor {
                Some(node) => node@ == chain.skip(count) && node.ends_foreign() == foreign
                    && !ends_in_foreign,
                None => count == shown(chain, foreign) && ends_in_foreign == (foreign
                    && chain.len() >= 1),
            },
        ensures
            count == shown(chain, foreign),
            f@ == old(f)@ + openings(chain, count),
            ends_in_foreign == (foreign && chain.len() >= 1),
        decreases
                match cursor {
                    Some(node) => node@.len() + 1,
                    None => 0,
                },
    {
        match cursor {
            None => {
                break ;
            },
            Some(node) => {
                proof {
                    node.lemma_chain_nonempty();
                }
                if node.foreign && node.cause.is_none() {
                    ends_in_foreign = true;
                    cursor = None;
                } else {
                    f.append("ErrorMessage { message: ");
                    f.append(quote(node.message.as_str()).as_str());
                    f.append(", cause: ");
                    proof {
                        assert(chain[count] == node@[0]);
                        assert(f@ =~= old(f)@ + openings(chain, count + 1));
                    }
                    match &node.cause {
                        Some(inner) => {
                            proof {
                                inner.lemma_chain_nonempty();
                                assert(node@.drop_first() =~= inner@);
                                assert(chain.skip(count).drop_first() =~= chain.skip(count + 1));
                                count = count + 1;
                            }
                            cursor = Some(&**inner);
                        },
                        None => {
                            proof {
                                assert(node@.len() == 1);
                                count = count + 1;
                            }
                            cursor = None;
                        },
                    }
                }
            },
        }
    }
    let ghost opened = f@;
    if ends_in_foreign {
        proof {
            assert(chain.skip(count).len() == 1);
        }
        f.append("Some(");
        f.append(last_message(error));
        f.append(")");
    } else {
        f.append("None");
    }
    proof {
        lemma_debug_unfold(chain, foreign, count);
        if ends_in_foreign {
            assert(chain.skip(count)[0] == chain.last());
        } else {
            assert(chain.skip(count).len() == 0);
        }
        assert(f@ =~= old(f)@ + openings(chain, count) + debug_cause(chain.skip(count), foreign));
        assert(f@ + closings(0) =~= f@);
    }
    let ghost inner_done = f@;
    let ghost mut closed: int = 0;
    let mut cursor: Option<&ErrorMessage> = Some(error);
    loop
        invariant
            0 <= closed <= count,
            count == shown(chain, foreign),
            f@ == inner_done + closings(closed),
            match cursor {
                Some(node) => node@ == chain.skip(closed) && node.ends_foreign() == foreign,
                None => closed == count,
            },
        ensures
            closed == count,
            f@ == inner_done + closings(closed),
        decreases
                match cursor {
                    Some(node) => node@.len() + 1,
                    None => 0,
                },
    {
        match cursor {
            None => {
                break ;
            },
            Some(node) => {
                proof {
                    node.lemma_chain_nonempty();
                }
                if node.foreign && node.cause.is_none() {
                    cursor = None;
                } else {
                    f.append(" }");
                    proof {
                        assert(f@ =~= inner_done + closings(closed + 1));
                    }
                    match &node.cause {
                        Some(inner) => {
                            proof {
                                inner.lemma_chain_nonempty();
                                assert(node@.drop_first() =~= inner@);
                                assert(chain.skip(closed).drop_first() =~= chain.skip(closed + 1));
                                closed = closed + 1;
                            }
                            cursor = Some(&**inner);
                        },
                        None => {
                            proof {
                                closed = closed + 1;
                            }
                            cursor = None;
                        },
                    }
                }
            },
        }
    }
    assert(f@ =~= old(f)@ + debug_cause(chain, foreign));
}

/// The message at the end of the chain.
fn last_message(error: &ErrorMessage) -> (message: &str)
    ensures
        message@ == error@.last(),
{
    let mut node: &ErrorMessage = error;
    proof {
        error.lemma_chain_nonempty();
    }
    loop
        invariant
            node@.len() >= 1,
            node@.last() == error@.last(),
        ensures
            node@.len() == 1,
            node@.last() == error@.last(),
        decreases node@.len(),
    {
        match &node.cause {
            Some(inner) => {
                proof {
                    inner.lemma_chain_nonempty();
                    assert(node@.last() == inner@.last());
                }
                node = &**inner;
            },
            None => {
                break ;
            },
        }
    }
    node.message.as_str()
}

/// Writes `error` behind `f` as the cause of what stands there: the
/// separator and then the printed chain of `error`. The chain is walked in a
/// loop, so its length is no limit.
fn fmt_cause(error: &ErrorMessage, f: &mut String)
    ensures
        final(f)@ == old(f)@ + caused_by() + render(error@),
{
    f.append("\n  caused by: ");
    f.append(error.message.as_str());
    let mut node: &ErrorMessage = error;
    let ghost mut done: Seq<Seq<char>> = seq![error.message@];
    proof {
        reveal_with_fuel(render, 2);
    }
    loop
        invariant
            done.len() >= 1,
            error@ == done.drop_last() + node@,
            done.last() == node@[0],
            f@ == old(f)@ + caused_by() + render(done),
        ensures
            f@ == old(f)@ + caused_by() + render(error@),
        decreases node@.len(),
    {
        match &node.cause {
            Some(inner) => {
                proof {
                    let inner_chain = inner@;
                    inner.lemma_chain_nonempty();
                    let grown = done.push(inner_chain[0]);
                    assert(grown.drop_last() =~= done);
                    assert(node@ =~= seq![node@[0]] + inner_chain);
                    assert(done.drop_last() + node@ =~= grown.drop_last() + inner_chain);
                    done = grown;
                }
                f.append("\n  caused by: ");
                f.append(inner.message.as_str());
                node = &**inner;
            },
            None => {
                assert(node@ =~= seq![node@[0]]);
                assert(done.drop_last() + node@ =~= done);
                break ;
            },
        }
    }
}

} // verus!
