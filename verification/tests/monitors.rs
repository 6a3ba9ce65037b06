use process_utils::layout::block;
use process_utils::layout::choose_setup;
use process_utils::layout::dlr_desk_setup;
use process_utils::layout::fallback_laptop_setup;
use process_utils::layout::fallback_setup;
use process_utils::layout::home_desk_setup;
use process_utils::layout::row;
use process_utils::layout::same_modes;
use process_utils::layout::screen_above_setup;
use process_utils::layout::Found;
use process_utils::layout::Setup;
use process_utils::output_filter::any_of;
use process_utils::output_filter::find_output;
use process_utils::output_filter::OutputFilter;
use process_utils::outputs::copy_modes;
use process_utils::outputs::refresh_for;
use process_utils::outputs::Mode;
use process_utils::outputs::OutputRef;
use process_utils::outputs::SwayOutputs;
use process_utils::process::ExitStatus;
use process_utils::swaymsg::check_applied;
use process_utils::swaymsg::read_answer;
use process_utils::swaymsg::setup_command;
use process_utils::swaymsg::setup_verdict;
use process_utils::swaymsg::SetupAnswer;
use process_utils::swaymsg::SuccessFlag;
use process_utils::swaymsg::SwayOutput;

fn mode(width: u32, height: u32, refresh: u32) -> Mode {
    Mode { width, height, refresh }
}

fn reported(name: &str, make: &str, model: &str, serial: &str, modes: Vec<Mode>) -> SwayOutput {
    SwayOutput {
        name: name.to_owned(),
        make: make.to_owned(),
        model: model.to_owned(),
        serial: serial.to_owned(),
        modes,
    }
}

fn desk() -> SwayOutputs {
    SwayOutputs::get_outputs(vec![
        reported("eDP-1", "Unknown", "0x08C9", "0x00000000", vec![mode(1920, 1200, 60001)]),
        reported("DP-7", "Dell Inc.", "DELL P2423DE", "FLFL1L3", vec![mode(2560, 1440, 59951), mode(1920, 1080, 60000)]),
        reported("DP-9", "Dell Inc.", "DELL P2423DE", "J1VK1L3", vec![mode(2560, 1440, 59951)]),
    ])
}

const SUCCESS: ExitStatus = ExitStatus { code: Some(0) };

#[test]
fn get_outputs_numbers_the_outputs_in_order() {
    let found = desk();
    assert_eq!(found.len(), 3);
    assert_eq!(found[0].index, OutputRef(0));
    assert_eq!(found[2].index, OutputRef(2));
    assert_eq!(found[1].name, "DP-7");
    assert_eq!(found[1].make, "Dell Inc.");
    assert_eq!(found[1].model, "DELL P2423DE");
    assert_eq!(found[1].serial, "FLFL1L3");
    assert_eq!(found[1].modes, vec![mode(2560, 1440, 59951), mode(1920, 1080, 60000)]);
    assert_eq!(found.as_outputs().len(), 3);
    assert_eq!(**&found[2], OutputRef(2));
}

#[test]
fn get_outputs_of_nothing_is_empty() {
    let found = SwayOutputs::get_outputs(Vec::new());
    assert!(found.is_empty());
    assert!(found.config_env().0.is_empty());
    assert!(found.find_monitor(OutputFilter::new()).is_none());
}

#[test]
fn width_and_height_are_those_of_the_first_mode() {
    let found = desk();
    assert_eq!(found[1].width(), 2560);
    assert_eq!(found[1].height(), 1440);
    assert_eq!(found[1].refresh_millihertz(), 59951);
    let env = found.config_env();
    assert_eq!(env.0[0].width(), 1920);
    assert_eq!(env.0[0].height(), 1200);
    assert_eq!(env.0[0].refresh_millihertz(), 60001);
    assert_eq!(env.0[0].stub(), OutputRef(0));
    assert_eq!(*env.0[1], OutputRef(1));
}

#[test]
fn configs_are_equal_where_they_are_for_the_same_output() {
    let found = desk();
    let env = found.config_env();
    let mut other = found.config_env();
    other.config(&OutputRef(1)).x(5).y(6);
    assert!(env.0[1] == other.0[1]);
    assert!(env.0[0] != other.0[1]);
    assert!(env.0[1].duplicate() == env.0[1]);
}

#[test]
fn find_monitor_takes_the_first_output_that_holds_every_part() {
    let found = desk();
    let builtin = found.find_monitor(OutputFilter::new().name_regex("eDP-1")).unwrap();
    assert_eq!(builtin.index, OutputRef(0));
    let dell = found.find_monitor(OutputFilter::new().make_regex("Dell Inc.").model_regex("DELL P2423DE")).unwrap();
    assert_eq!(dell.name, "DP-7");
    let left = found
        .find_monitor(OutputFilter::new().make_regex("Dell Inc.").model_regex("DELL P2423DE").serial_regex("J1VK1L3"))
        .unwrap();
    assert_eq!(left.name, "DP-9");
    assert!(found.find_monitor(OutputFilter::new().model_regex("27GL650F").make_regex("LG Electronics")).is_none());
    assert!(found.find_monitor(OutputFilter::new().make_regex("Dell Inc.").serial_regex("nothing")).is_none());
}

#[test]
fn a_part_of_a_filter_is_looked_for_letter_for_letter() {
    let found = desk();
    assert_eq!(found.find_monitor(OutputFilter::new().name_regex("DP-")).unwrap().name, "eDP-1");
    assert!(found.find_monitor(OutputFilter::new().name_regex("DP-[0-9]")).is_none());
    assert!(found.find_monitor(OutputFilter::new().name_regex("dp-7")).is_none());
    assert_eq!(found.find_monitor(OutputFilter::new().name_regex("")).unwrap().name, "eDP-1");
    assert_eq!(found.find_monitor(OutputFilter::new()).unwrap().name, "eDP-1");
    let filter = OutputFilter::new().serial_regex("FLFL");
    assert!(!filter.matches(&found[0]));
    assert!(filter.matches(&found[1]));
    assert_eq!(find_output(found.as_outputs(), filter).unwrap().name, "DP-7");
}

#[test]
fn any_of_takes_the_first_that_is_there() {
    assert_eq!(any_of(vec![None, Some(2), Some(3)]), Some(2));
    assert_eq!(any_of(vec![Some(1), None]), Some(1));
    assert_eq!(any_of(vec![None, None, Some(9)]), Some(9));
    assert_eq!(any_of::<u8>(vec![None, None]), None);
    assert_eq!(any_of::<u8>(Vec::new()), None);
}

#[test]
fn setup_string_writes_each_output_with_what_was_set() {
    let found = SwayOutputs::get_outputs(vec![
        reported("eDP-1", "", "", "", vec![mode(1920, 1200, 60001)]),
        reported("DP-7", "", "", "", vec![mode(2560, 1440, 59951)]),
    ]);
    let mut env = found.config_env();
    env.config(&OutputRef(0)).x(1568).y(1440).bg("laptop.png");
    let refresh = vec!["60.001".to_owned(), "59.951".to_owned()];
    let text = env.setup_string(&refresh, "/home/user/bg", "default.png");
    assert_eq!(
        text,
        "output \"eDP-1\" {
                mode  1920x1200@60.001Hz
                pos 1568 1440
                transform normal
                scale 1.0
                scale_filter nearest
                adaptive_sync off
                dpms on
                bg /home/user/bg/laptop.png
            }
            output \"DP-7\" {
                mode  2560x1440@59.951Hz
                pos 0 0
                transform normal
                scale 1.0
                scale_filter nearest
                adaptive_sync off
                dpms on
                bg /home/user/bg/default.png
            }
            "
    );
}

#[test]
fn a_disabled_output_is_switched_off() {
    let found = SwayOutputs::get_outputs(vec![reported("eDP-1", "", "", "", Vec::new())]);
    let mut env = found.config_env();
    env.config(&OutputRef(0)).disable();
    assert_eq!(env.0[0].commands("unused", "unused", "unused"), "output \"eDP-1\" disable");
    assert_eq!(env.setup_string(&vec![String::new()], "a", "b"), "output \"eDP-1\" disable");
    assert_eq!(env.0.len(), 1);
    assert!(!env.0[0].is_enabled());
    assert_eq!(env.0[0].mode_count(), 0);
    assert_eq!(env.0[0].name(), "eDP-1");
}

#[test]
fn format_output_writes_the_first_mode_at_the_offset() {
    let found = desk();
    assert_eq!(
        found[0].format_output(0, "60.001"),
        "output \"eDP-1\" {
    mode  1920x1200@60.001Hz
    pos 0 0
    transform normal
    scale 1.0
    scale_filter nearest
    adaptive_sync off
    dpms on
}
"
    );
    assert!(found[1].format_output(4294967295, "59.951").contains("\n    pos 4294967295 0\n"));
}

#[test]
fn fallback_puts_the_outputs_in_a_row() {
    let found = desk();
    let refresh = vec!["60.001".to_owned(), "59.951".to_owned(), "59.951".to_owned()];
    let text = fallback_setup(found.as_outputs(), &refresh);
    assert_eq!(
        text,
        format!(
            "{}{}{}",
            found[0].format_output(0, "60.001"),
            found[1].format_output(1920, "59.951"),
            found[2].format_output(4480, "59.951")
        )
    );
    assert_eq!(row(found.as_outputs(), &refresh, None), text);
    assert_eq!(fallback_setup(&Vec::new(), &Vec::new()), "");
    assert_eq!(
        fallback_setup(found.as_outputs(), &vec!["60.001".to_owned()]),
        format!(
            "{}{}{}",
            found[0].format_output(0, "60.001"),
            found[1].format_output(1920, ""),
            found[2].format_output(4480, "")
        )
    );
    assert_eq!(refresh_for(&refresh, 1), "59.951");
    assert_eq!(refresh_for(&refresh, 3), "");
}

#[test]
fn fallback_for_the_laptop_begins_at_the_left_twice() {
    let found = desk();
    let refresh = vec!["60.001".to_owned(), "59.951".to_owned(), "59.951".to_owned()];
    let text = fallback_laptop_setup(found.as_outputs(), &refresh, &found[0], "60.001");
    assert_eq!(
        text,
        format!(
            "{}{}{}",
            found[0].format_output(0, "60.001"),
            found[1].format_output(0, "59.951"),
            found[2].format_output(2560, "59.951")
        )
    );
}

#[test]
fn row_positions_do_not_wrap_around() {
    let wide = |name: &str| reported(name, "", "", "", vec![mode(4294967295, 1, 1)]);
    let found = SwayOutputs::get_outputs(vec![wide("a"), wide("b"), wide("c")]);
    let refresh = vec![String::new(), String::new(), String::new()];
    let text = fallback_setup(found.as_outputs(), &refresh);
    assert!(text.contains("pos 0 0"));
    assert!(text.contains("pos 4294967295 0"));
    assert!(text.contains("pos 8589934590 0"));
}

#[test]
fn outputs_are_the_same_where_all_that_was_reported_is() {
    let found = desk();
    assert!(found[1].same_as(&found[1]));
    assert!(!found[1].same_as(&found[2]));
    let twin = SwayOutputs::get_outputs(vec![
        reported("x", "", "", "", Vec::new()),
        reported("DP-7", "Dell Inc.", "DELL P2423DE", "FLFL1L3", vec![mode(2560, 1440, 59951), mode(1920, 1080, 60000)]),
    ]);
    assert!(found[1].same_as(&twin[1]));
    assert!(same_modes(&vec![mode(1, 2, 3)], &vec![mode(1, 2, 3)]));
    assert!(!same_modes(&vec![mode(1, 2, 3)], &vec![mode(1, 2, 4)]));
    assert!(!same_modes(&vec![mode(1, 2, 3)], &Vec::new()));
    assert_eq!(copy_modes(&vec![mode(1, 2, 3), mode(4, 5, 6)]), vec![mode(1, 2, 3), mode(4, 5, 6)]);
}

fn found(laptop_builtin: bool, desk_center: bool, desk_left: bool, desk_right: bool, dlr_left: bool, dlr_right: bool) -> Found {
    Found { laptop_builtin, desk_center, desk_left, desk_right, dlr_left, dlr_right }
}

#[test]
fn the_first_setup_whose_monitors_are_there_is_chosen() {
    assert_eq!(choose_setup(found(true, true, true, true, true, true)), Setup::HomeDesk);
    assert_eq!(choose_setup(found(true, true, true, false, true, true)), Setup::DlrDesk);
    assert_eq!(choose_setup(found(true, true, false, true, true, false)), Setup::ScreenAbove);
    assert_eq!(choose_setup(found(true, false, true, true, false, true)), Setup::FallbackLaptop);
    assert_eq!(choose_setup(found(false, true, true, true, true, true)), Setup::Fallback);
    assert_eq!(choose_setup(found(false, false, false, false, false, false)), Setup::Fallback);
}

#[test]
fn home_desk_setup_is_written_in_full() {
    assert_eq!(
        home_desk_setup("DP-1", "DP-2", "DP-3", "eDP-1"),
        "output \"DP-1\" {
        mode  1920x1080@144.001Hz
        pos 1920 0
        transform normal
        scale 1.0
        scale_filter nearest
        adaptive_sync off
        dpms on
    }
    output \"DP-2\" {
        mode  1920x1080@60.0Hz
        pos 3840 0
        transform normal
        scale 1.0
        scale_filter nearest
        adaptive_sync off
        dpms on
    }
    output \"DP-3\" {
        mode  1920x1200@59.95Hz
        pos 0 0
        transform normal
        scale 1.0
        scale_filter nearest
        adaptive_sync off
        dpms on
    }
    output \"eDP-1\" disable
    "
    );
}

#[test]
fn dlr_desk_setup_is_written_in_full() {
    assert_eq!(
        dlr_desk_setup("eDP-1", "DP-7", "DP-9"),
        "output \"eDP-1\" {
        mode  1920x1200@60.001Hz
        pos 1568 1440
        transform normal
        scale 1.0
        scale_filter nearest
        adaptive_sync off
        dpms on
    }
    output \"DP-7\" {
        mode  2560x1440@59.951Hz
        pos 2560 0
        transform normal
        scale 1.0
        scale_filter nearest
        adaptive_sync off
        dpms on
    }
    output \"DP-9\" {
        mode  2560x1440@59.951Hz
        pos 0 0
        transform normal
        scale 1.0
        scale_filter nearest
        adaptive_sync off
        dpms on
    }
    "
    );
}

#[test]
fn screen_above_setup_is_written_in_full() {
    assert_eq!(
        screen_above_setup("eDP-1", "DP-1"),
        "output \"eDP-1\" {
        mode  1920x1200@60.001Hz
        pos 0 1080
        transform normal
        scale 1.0
        scale_filter nearest
        adaptive_sync off
        dpms on
    }
    output \"DP-1\" {
        mode  1920x1080@144.001Hz
        pos 0 0
        transform normal
        scale 1.0
        scale_filter nearest
        adaptive_sync off
        dpms on
    }
    "
    );
    assert_eq!(
        block("n", "m", "p", "", ""),
        "output \"n\" {\nmode  mHz\npos p\ntransform normal\nscale 1.0\nscale_filter nearest\nadaptive_sync off\ndpms on\n}\n"
    );
}

#[test]
fn setup_command_is_one_line_of_commands() {
    let found = desk();
    let setup = format!("{}{}", found[0].format_output(0, "60.001"), "output \"DP-7\" disable\n");
    assert_eq!(
        setup_command(&setup),
        "output \"eDP-1\"     mode  1920x1200@60.001Hz    pos 0 0    transform normal    scale 1.0    scale_filter nearest    adaptive_sync off    dpms on, output \"DP-7\" disable"
    );
}

#[test]
fn setup_command_leaves_comments_out() {
    assert_eq!(setup_command("# a comment\noutput a {\n# output b\n}\noutput c disable"), "output a , output c disable");
    assert_eq!(setup_command("  # indented is no comment\n"), "  # indented is no comment");
    assert_eq!(setup_command(""), "");
    assert_eq!(setup_command("pos 1 2\r\n{}\r\n"), "pos 1 2");
    assert_eq!(setup_command("x, output y"), "x, , output y");
    assert_eq!(setup_command(", x"), "x");
    assert_eq!(setup_command("outputoutput"), "output, output");
}

#[test]
fn a_setup_is_applied_where_every_result_holds_success() {
    assert!(check_applied(SUCCESS, "[{\"success\": true}, {\"success\": true}]").is_ok());
    assert!(check_applied(SUCCESS, "[]").is_ok());
    assert!(check_applied(SUCCESS, " [ { \"success\" : true , \"other\": 1 } ] ").is_ok());
}

#[test]
fn a_failed_command_is_no_applied_setup() {
    let error = check_applied(ExitStatus::from_code(Some(2)), "[{\"success\": true}]").unwrap_err();
    assert_eq!(error.to_string(), "Running the swaymsg command to apply the configuration failed");
    let error = check_applied(ExitStatus::from_code(None), "no json").unwrap_err();
    assert_eq!(error.to_string(), "Running the swaymsg command to apply the configuration failed");
}

#[test]
fn an_answer_that_is_no_json_is_a_failure_with_the_parser_error() {
    let error = check_applied(SUCCESS, "").unwrap_err();
    assert_eq!(error.to_string(), "Expected json\n  caused by: Error(\"EOF while parsing a value\", line: 1, column: 0)");
    let error = check_applied(SUCCESS, "[{\"success\": true}").unwrap_err();
    assert_eq!(error.message(), "Expected json");
    assert!(error.cause().is_some());
}

#[test]
fn an_answer_must_be_an_array_of_results_with_success() {
    assert_eq!(check_applied(SUCCESS, "{\"success\": true}").unwrap_err().to_string(), "Expected array");
    assert_eq!(check_applied(SUCCESS, "true").unwrap_err().to_string(), "Expected array");
    assert_eq!(check_applied(SUCCESS, "[{\"success\": true}, {}]").unwrap_err().to_string(), "Expected success");
    assert_eq!(check_applied(SUCCESS, "[true]").unwrap_err().to_string(), "Expected success");
    assert_eq!(check_applied(SUCCESS, "[{\"success\": \"true\"}]").unwrap_err().to_string(), "Expected bool");
    assert_eq!(check_applied(SUCCESS, "[{\"success\": null}]").unwrap_err().to_string(), "Expected bool");
    assert_eq!(
        check_applied(SUCCESS, "[{\"success\": true}, {\"success\": false, \"error\": \"x\"}]").unwrap_err().to_string(),
        "Expected success to be true"
    );
    assert_eq!(check_applied(SUCCESS, "[{\"success\": false}, {}]").unwrap_err().to_string(), "Expected success to be true");
    assert_eq!(check_applied(SUCCESS, "[{}, {\"success\": false}]").unwrap_err().to_string(), "Expected success");
}

#[test]
fn read_answer_tells_what_the_answer_holds() {
    assert!(matches!(read_answer("nope"), SetupAnswer::NotJson(_)));
    assert!(matches!(read_answer("3"), SetupAnswer::NotArray));
    match read_answer("[{\"success\": true}, {\"success\": 1}, 7, {\"success\": false}]") {
        SetupAnswer::Results(flags) => assert_eq!(
            flags,
            vec![SuccessFlag::Flag(true), SuccessFlag::NotBool, SuccessFlag::Missing, SuccessFlag::Flag(false)]
        ),
        other => panic!("unexpected {:?}", other),
    }
}

#[test]
fn setup_verdict_goes_by_the_first_result_that_is_not_true() {
    assert!(setup_verdict(SUCCESS, SetupAnswer::Results(vec![SuccessFlag::Flag(true)])).is_ok());
    assert_eq!(
        setup_verdict(SUCCESS, SetupAnswer::Results(vec![SuccessFlag::Flag(true), SuccessFlag::NotBool, SuccessFlag::Missing]))
            .unwrap_err()
            .to_string(),
        "Expected bool"
    );
    assert_eq!(
        setup_verdict(SUCCESS, SetupAnswer::NotJson("why".to_owned())).unwrap_err().to_string(),
        "Expected json\n  caused by: why"
    );
    assert_eq!(setup_verdict(SUCCESS, SetupAnswer::NotArray).unwrap_err().to_string(), "Expected array");
    assert_eq!(
        setup_verdict(ExitStatus::from_code(Some(1)), SetupAnswer::Results(Vec::new())).unwrap_err().to_string(),
        "Running the swaymsg command to apply the configuration failed"
    );
}
