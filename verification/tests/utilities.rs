use process_utils::audio::default_device;
use process_utils::audio::find_next_sink;
use process_utils::audio::find_next_source;
use process_utils::audio::list_all_sinks;
use process_utils::audio::list_all_sources;
use process_utils::audio::listed_names;
use process_utils::day_countdown::countdown;
use process_utils::day_countdown::countdown_message;
use process_utils::jetbrains_setup::create_config;
use process_utils::jetbrains_setup::find_dot_idea_folder;
use process_utils::jetbrains_setup::has_component;
use process_utils::jetbrains_setup::insert_new_config;
use process_utils::jetbrains_setup::missing_binaries;
use process_utils::jetbrains_setup::missing_stdlib;
use process_utils::jetbrains_setup::replace_config;
use process_utils::jetbrains_setup::rust_bin_path;
use process_utils::jetbrains_setup::rust_lib_path;
use process_utils::power_profiles::next_profile;
use process_utils::power_profiles::power_high;
use process_utils::power_profiles::power_low;
use process_utils::power_profiles::power_normal;
use process_utils::power_profiles::print_profile;
use process_utils::power_profiles::profile_command;
use process_utils::power_profiles::ProfileCommand;
use process_utils::process::ExitStatus;
use process_utils::regex_copier::check_pattern;
use process_utils::regex_copier::fill_format;
use process_utils::regex_copier::matched_text;
use process_utils::regex_copier::source_path;
use process_utils::releaser::is_released;
use process_utils::text::enclose;
use process_utils::text::join;
use process_utils::vpn::is_in_home_ip_range;
use process_utils::vpn::is_vpn_interface_active;
use process_utils::vpn::ping;
use process_utils::vpn::print_status;
use process_utils::vpn::service_name;
use process_utils::vpn::use_local_profile;
use process_utils::vpn::vpn_command;
use process_utils::vpn::VpnCommand;

const SUCCESS: ExitStatus = ExitStatus { code: Some(0) };

fn names(all: &[&str]) -> Vec<String> {
    all.iter().map(|name| name.to_string()).collect()
}

#[test]
fn join_and_enclose_put_texts_together() {
    assert_eq!(join("a", "b"), "ab");
    assert_eq!(join("", ""), "");
    assert_eq!(enclose("<", "x", ">"), "<x>");
}

#[test]
fn next_profile_goes_round() {
    assert_eq!(next_profile("power-saver").unwrap(), "balanced");
    assert_eq!(next_profile("balanced").unwrap(), "performance");
    assert_eq!(next_profile("performance").unwrap(), "power-saver");
}

#[test]
fn next_profile_fails_on_an_unknown_setting() {
    assert_eq!(next_profile("turbo").unwrap_err().to_string(), "Got unknown power setting: turbo");
    assert_eq!(next_profile("").unwrap_err().to_string(), "Got unknown power setting: ");
    assert_eq!(next_profile("balanced\n").unwrap_err().to_string(), "Got unknown power setting: balanced\n");
}

#[test]
fn print_profile_gives_the_line_of_each_profile() {
    assert_eq!(print_profile("performance").unwrap(), "{\"state\": \"Good\", \"text\": \"\u{f0ee}\"}");
    assert_eq!(print_profile("balanced").unwrap(), "{\"state\": \"Info\", \"text\": \"\u{f0c2}\"}");
    assert_eq!(print_profile("power-saver").unwrap(), "{\"state\": \"Idle\", \"text\": \"\u{f0ed}\"}");
    assert_eq!(print_profile("x").unwrap_err().to_string(), "Got unknown power setting: x");
    assert_eq!(power_high(), print_profile("performance").unwrap());
    assert_eq!(power_normal(), print_profile("balanced").unwrap());
    assert_eq!(power_low(), print_profile("power-saver").unwrap());
}

#[test]
fn profile_command_reads_the_argument() {
    assert!(matches!(profile_command(None).unwrap(), ProfileCommand::Show));
    assert!(matches!(profile_command(Some("toggle")).unwrap(), ProfileCommand::Toggle));
    assert!(matches!(profile_command(Some("balanced")).unwrap(), ProfileCommand::SwitchTo("balanced")));
    assert!(matches!(profile_command(Some("power-saver")).unwrap(), ProfileCommand::SwitchTo("power-saver")));
    assert!(matches!(profile_command(Some("performance")).unwrap(), ProfileCommand::SwitchTo("performance")));
    assert_eq!(profile_command(Some("fast")).unwrap_err().to_string(), "Unknown argument 'fast'");
}

#[test]
fn service_name_wraps_the_profile() {
    assert_eq!(service_name("wg_local"), "wireguard-wg_local.service");
    assert_eq!(service_name(""), "wireguard-.service");
}

#[test]
fn local_profile_needs_home_and_server() {
    assert!(use_local_profile(true, true));
    assert!(!use_local_profile(true, false));
    assert!(!use_local_profile(false, true));
    assert!(!use_local_profile(false, false));
}

#[test]
fn print_status_shows_a_vpn_that_answers() {
    assert_eq!(
        print_status(true, true, true, false, Some("12.3".to_owned())),
        "{\"state\": \"Good\", \"text\": \"\u{f1eb} \u{f015} |\u{f015} \u{f07e} 12.3 ms\"}"
    );
}

#[test]
fn print_status_shows_services_without_an_answer() {
    assert_eq!(
        print_status(false, false, true, true, None),
        "{\"state\": \"Warning\", \"text\": \"\u{f059} \u{f57d}|\u{f0ac} \u{f015} \u{f07e} \u{f1e6} \"}"
    );
    assert_eq!(
        print_status(false, true, false, true, None),
        "{\"state\": \"Warning\", \"text\": \"\u{f059} \u{f015} |\u{f0ac} \u{f07e} \u{f1e6} \"}"
    );
}

#[test]
fn print_status_is_critical_without_service_and_answer() {
    assert_eq!(
        print_status(true, false, false, false, None),
        "{\"state\": \"Critical\", \"text\": \"\u{f1eb} \u{f57d}|\u{f00d} \u{f07e} \u{f1e6} \"}"
    );
}

#[test]
fn ping_reads_the_time() {
    let output = "PING 172.16.0.1 (172.16.0.1) 56(84) bytes of data.\n64 bytes from 172.16.0.1: icmp_seq=1 ttl=64 time=0.045 ms\n";
    assert_eq!(ping(SUCCESS, output).unwrap(), Some("0.045".to_owned()));
    assert_eq!(ping(SUCCESS, "time=1 time=2 ms").unwrap(), Some("1".to_owned()));
    assert_eq!(ping(SUCCESS, "time= ").unwrap(), Some(String::new()));
}

#[test]
fn ping_that_failed_has_no_time() {
    assert_eq!(ping(ExitStatus::from_code(Some(1)), "time=3 ms").unwrap(), None);
    assert_eq!(ping(ExitStatus::from_code(None), "").unwrap(), None);
}

#[test]
fn ping_fails_on_output_without_time() {
    assert_eq!(
        ping(SUCCESS, "nothing here").unwrap_err().to_string(),
        "Expected output of successful ping command to contain string 'time='. Instead got:\nnothing here"
    );
    assert_eq!(
        ping(SUCCESS, "a time=12ms").unwrap_err().to_string(),
        "Expected output of successful ping command to contain 'time=<TIME> ms'. Instead got:\na time=12ms"
    );
}

#[test]
fn addresses_and_interfaces_are_looked_for_in_the_listing() {
    assert!(is_in_home_ip_range("inet 192.168.1.17/24 brd"));
    assert!(!is_in_home_ip_range("inet 192.168.10.17/24 brd"));
    assert!(!is_in_home_ip_range(""));
    assert!(is_vpn_interface_active("interface: wg_local\n", "wg_local"));
    assert!(!is_vpn_interface_active("interface: wg_global\n", "wg_local"));
}

#[test]
fn vpn_command_reads_the_argument() {
    assert_eq!(vpn_command(None, true, true).unwrap(), VpnCommand::Status);
    assert_eq!(vpn_command(Some("status"), false, false).unwrap(), VpnCommand::Status);
    assert_eq!(vpn_command(Some("toggle"), true, true).unwrap(), VpnCommand::Stop);
    assert_eq!(vpn_command(Some("toggle"), false, true).unwrap(), VpnCommand::Restart { local: true });
    assert_eq!(vpn_command(Some("toggle"), false, false).unwrap(), VpnCommand::Restart { local: false });
    assert_eq!(vpn_command(Some("start"), true, false).unwrap(), VpnCommand::Restart { local: false });
    assert_eq!(vpn_command(Some("stop"), false, true).unwrap(), VpnCommand::Stop);
    assert_eq!(vpn_command(Some("global"), true, true).unwrap(), VpnCommand::Switch { local: false });
    assert_eq!(vpn_command(Some("local"), true, false).unwrap(), VpnCommand::Switch { local: true });
    assert_eq!(vpn_command(Some("up"), true, true).unwrap_err().to_string(), "Unknown argument 'up'");
}

#[test]
fn sinks_are_the_second_fields_in_ascending_order() {
    let listing = "57\talsa_output.pci.hdmi\tPipeWire\ts32le 2ch 48000Hz\tSUSPENDED\n56\talsa_output.pci.analog\tPipeWire\ts32le\tRUNNING\nno tabulator here\n";
    assert_eq!(list_all_sinks(listing), names(&["alsa_output.pci.analog", "alsa_output.pci.hdmi"]));
    assert_eq!(listed_names(listing, false), names(&["alsa_output.pci.hdmi", "alsa_output.pci.analog"]));
    assert!(list_all_sinks("").is_empty());
    assert_eq!(list_all_sinks("1\tb\n2\tB\n3\ta\n4\t\n5\tab"), names(&["", "B", "a", "ab", "b"]));
}

#[test]
fn sources_leave_the_monitors_out() {
    let listing = "1\talsa_output.analog.monitor\tx\n2\tusb_mic\tx\r\n3\talsa_input.analog\tx\n4\t.monitor";
    assert_eq!(list_all_sources(listing), names(&["alsa_input.analog", "usb_mic"]));
    assert_eq!(listed_names(listing, true), names(&["usb_mic", "alsa_input.analog"]));
    assert_eq!(listed_names(listing, false).len(), 4);
}

#[test]
fn default_device_is_trimmed() {
    assert_eq!(default_device("alsa_output.pci.analog\n"), "alsa_output.pci.analog");
    assert_eq!(default_device(" \t a b \u{a0}\r\n"), "a b");
    assert_eq!(default_device("  "), "");
}

#[test]
fn the_next_sink_follows_the_current_one() {
    let all = names(&["a", "b", "c"]);
    assert_eq!(find_next_sink(all.clone(), "a".to_owned()).unwrap(), "b");
    assert_eq!(find_next_sink(all.clone(), "b".to_owned()).unwrap(), "c");
    assert_eq!(find_next_sink(all.clone(), "c".to_owned()).unwrap(), "a");
    assert_eq!(find_next_sink(all.clone(), "unknown".to_owned()).unwrap(), "a");
    assert_eq!(find_next_sink(names(&["only"]), "only".to_owned()).unwrap(), "only");
    assert_eq!(find_next_sink(names(&["a", "b", "a", "c"]), "a".to_owned()).unwrap(), "b");
}

#[test]
fn no_sinks_is_a_failure() {
    assert_eq!(find_next_sink(Vec::new(), "a".to_owned()).unwrap_err().to_string(), "No sinks found!");
    assert_eq!(find_next_source(&[], "a").unwrap_err().to_string(), "No sources found!");
}

#[test]
fn the_next_source_follows_the_current_one() {
    let all = names(&["mic", "usb"]);
    assert_eq!(find_next_source(&all, "mic").unwrap(), "usb");
    assert_eq!(find_next_source(&all, "usb").unwrap(), "mic");
    assert_eq!(find_next_source(&all, "").unwrap(), "mic");
}

#[test]
fn released_are_files_that_are_no_dotfiles_and_no_d_files() {
    assert!(is_released("vpn", true));
    assert!(is_released("a.dd", true));
    assert!(is_released("d", true));
    assert!(!is_released("vpn", false));
    assert!(!is_released(".cargo-lock", true));
    assert!(!is_released("vpn.d", true));
    assert!(!is_released(".d", true));
    assert!(is_released("", true));
}

#[test]
fn toolchain_paths_lie_under_the_trimmed_root() {
    assert_eq!(rust_bin_path("/nix/store/abc-rust\n"), "/nix/store/abc-rust/bin");
    assert_eq!(rust_lib_path("/nix/store/abc-rust\n"), "/nix/store/abc-rust/lib/rustlib/src/rust/library");
    assert_eq!(missing_binaries("/x/bin").to_string(), "Rust binaries not found at path: /x/bin");
    assert_eq!(missing_stdlib("/x/lib").to_string(), "Rust stdlib not found at path: /x/lib");
}

#[test]
fn create_config_writes_the_component() {
    assert_eq!(
        create_config("/r/bin", "/r/lib"),
        "<component name=\"RustProjectSettings\">
    <option name=\"toolchainHomeDirectory\" value=\"/r/bin\" />
    <option name=\"explicitPathToStdlib\" value=\"/r/lib\" />
  </component>"
    );
}

#[test]
fn a_new_config_goes_before_the_end_of_the_project() {
    let content = "<project version=\"4\">\n  <component name=\"A\" />\n</project>\n";
    assert!(!has_component(content));
    assert_eq!(
        insert_new_config(content, "CONFIG").unwrap(),
        "<project version=\"4\">\n  <component name=\"A\" />\n  CONFIG\n</project>\n"
    );
    assert_eq!(insert_new_config("</project></project>", "C").unwrap(), "  C\n</project></project>");
    assert_eq!(insert_new_config("<project>", "C"), None);
}

#[test]
fn an_old_config_is_replaced_up_to_its_end() {
    let content = "<project>\n  <component name=\"RustProjectSettings\">\n    <option />\n  </component>\n  <component name=\"B\">\n  </component>\n</project>";
    assert!(has_component(content));
    assert_eq!(
        replace_config(content, "NEW").unwrap(),
        "<project>\n  NEW\n  <component name=\"B\">\n  </component>\n</project>"
    );
    assert_eq!(replace_config("<component name=\"RustProjectSettings\"></component>", "N").unwrap(), "N");
    assert_eq!(replace_config("<component name=\"RustProjectSettings\">", "N"), None);
    assert_eq!(replace_config("</component>", "N"), None);
}

#[test]
fn the_idea_folder_is_the_first_candidate_that_is_a_directory() {
    let candidates = names(&["/a/b/.idea", "/a/.idea", "/.idea"]);
    assert_eq!(find_dot_idea_folder(&candidates, &vec![false, true, true]).unwrap(), "/a/.idea");
    assert_eq!(find_dot_idea_folder(&candidates, &vec![true, false, false]).unwrap(), "/a/b/.idea");
    assert_eq!(
        find_dot_idea_folder(&candidates, &vec![false, false, false]).unwrap_err().to_string(),
        "Could not find .idea/ directory when searching all parents.Root path reached when trying to get parent directory."
    );
    assert!(find_dot_idea_folder(&Vec::new(), &Vec::new()).is_err());
    assert!(find_dot_idea_folder(&candidates, &vec![false]).is_err());
    assert_eq!(find_dot_idea_folder(&candidates, &vec![false, true]).unwrap(), "/a/.idea");
    assert!(find_dot_idea_folder(&Vec::new(), &vec![true]).is_err());
}

#[test]
fn countdown_message_counts_the_days() {
    assert_eq!(countdown_message(0), "In my arms! \u{1f970}\u{fe0f}");
    assert_eq!(countdown_message(-5), "In my arms! \u{1f970}\u{fe0f}");
    assert_eq!(countdown_message(i64::MIN), "In my arms! \u{1f970}\u{fe0f}");
    assert_eq!(countdown_message(1), "Tomorrow! \u{2665}\u{fe0f}");
    assert_eq!(countdown_message(2), "2 Days \u{2665}\u{fe0f}");
    assert_eq!(countdown_message(365), "365 Days \u{2665}\u{fe0f}");
    assert_eq!(countdown_message(i64::MAX), "9223372036854775807 Days \u{2665}\u{fe0f}");
}

#[test]
fn countdown_reads_the_date_and_counts() {
    let today = day_number(2024, 2, 27);
    assert_eq!(today, 738943);
    assert_eq!(countdown("01.03.2024\n", today).unwrap(), "3 Days \u{2665}\u{fe0f}");
    assert_eq!(countdown(" 28.02.2024 ", today).unwrap(), "Tomorrow! \u{2665}\u{fe0f}");
    assert_eq!(countdown("27.02.2024", today).unwrap(), "In my arms! \u{1f970}\u{fe0f}");
    assert_eq!(countdown("1.1.2000", today).unwrap(), "In my arms! \u{1f970}\u{fe0f}");
    assert_eq!(countdown("27.02.2025", today).unwrap(), "366 Days \u{2665}\u{fe0f}");
    assert_eq!(countdown("01.01.0001", 0).unwrap(), "Tomorrow! \u{2665}\u{fe0f}");
    assert_eq!(countdown("02.01.1970", 719_163).unwrap(), "Tomorrow! \u{2665}\u{fe0f}");
    assert_eq!(countdown("31.12.9999", i32::MIN).unwrap(), "2151135707 Days \u{2665}\u{fe0f}");
    assert_eq!(countdown("31.12.9999", i32::MAX).unwrap(), "In my arms! \u{1f970}\u{fe0f}");
}

fn day_number(year: i32, month: u32, day: u32) -> i32 {
    chrono::Datelike::num_days_from_ce(&chrono::NaiveDate::from_ymd_opt(year, month, day).unwrap())
}

#[test]
fn countdown_fails_on_what_is_no_date() {
    let today = day_number(2024, 2, 27);
    let error = countdown("2024-03-01", today).unwrap_err();
    assert_eq!(error.message(), "Unexpected date format. Expected format: DD.MM.YYYY");
    assert_eq!(error.to_string(), "Unexpected date format. Expected format: DD.MM.YYYY\n  caused by: ParseError(Invalid)");
    assert_eq!(
        countdown("31.02.2024", today).unwrap_err().to_string(),
        "Unexpected date format. Expected format: DD.MM.YYYY\n  caused by: ParseError(OutOfRange)"
    );
    assert!(countdown("", today).is_err());
}

fn groups(all: &[Option<&str>]) -> Vec<Option<String>> {
    all.iter().map(|group| group.map(|text| text.to_owned())).collect()
}

#[test]
fn a_format_is_filled_with_the_last_group() {
    assert_eq!(fill_format("/src/{}.txt", &groups(&[Some("whole"), Some("one")]), "f").unwrap(), "/src/one.txt");
    assert_eq!(fill_format("/src/{}.txt", &groups(&[Some("whole")]), "f").unwrap(), "/src/whole.txt");
    assert_eq!(fill_format("/src/{}", &groups(&[Some("w"), Some("a"), None]), "f").unwrap(), "/src/a");
    assert_eq!(fill_format("plain", &groups(&[Some("w")]), "f").unwrap(), "plain");
    assert_eq!(fill_format("plain", &groups(&[]), "f").unwrap(), "plain");
}

#[test]
fn a_format_with_a_gap_left_is_a_failure() {
    let error = fill_format("{}-{}", &groups(&[Some("w"), Some("a"), Some("b")]), "name").unwrap_err();
    assert_eq!(
        error.to_string(),
        "Target Formatstring still contains {}!\n                    File: name\n                    Partially filled in formatstring: b-{}\n                    "
    );
    assert!(fill_format("{}", &groups(&[None]), "n").is_err());
    assert!(fill_format("{}", &groups(&[Some("{}")]), "n").is_err());
}

#[test]
fn source_path_goes_by_the_pattern() {
    let pattern = "^IMG_(\\d+)\\.jpg$";
    assert!(check_pattern(pattern).is_ok());
    assert_eq!(source_path(pattern, "/photos/{}.raw", "IMG_0042.jpg").unwrap(), Some("/photos/0042.raw".to_owned()));
    assert_eq!(source_path(pattern, "/photos/{}.raw", "IMG_x.jpg").unwrap(), None);
    assert_eq!(source_path(pattern, "/photos/{}.raw", "").unwrap(), None);
    let optional = "(a)|(b)";
    assert_eq!(source_path(optional, "<{}>", "xbx").unwrap(), Some("<b>".to_owned()));
    assert_eq!(source_path(optional, "<{}>", "xax").unwrap(), Some("<a>".to_owned()));
    assert!(source_path(optional, "<{}{}>", "a").is_err());
    assert_eq!(source_path("", "<{}>", "abc").unwrap(), Some("<>".to_owned()));
}

#[test]
fn a_text_that_is_no_pattern_is_a_failure() {
    let error = check_pattern("foo(bar").unwrap_err();
    assert_eq!(error.message(), "src_file_regex invalid");
    assert!(error.cause().unwrap().message().contains("unclosed group"));
    assert!(error.cause().unwrap().cause().is_none());
    let error = source_path("foo(bar", "{}", "foo").unwrap_err();
    assert_eq!(error.message(), "src_file_regex invalid");
    assert!(check_pattern("\\w{1000}").is_err());
}

#[test]
fn matched_text_is_the_whole_match() {
    assert_eq!(matched_text("IMG_(\\d+)", "x_IMG_0042.jpg").unwrap(), Some("IMG_0042".to_owned()));
    assert_eq!(matched_text("IMG_(\\d+)", "x.jpg").unwrap(), None);
    assert_eq!(matched_text("", "x.jpg").unwrap(), Some(String::new()));
    let error = matched_text("(", "x").unwrap_err();
    assert_eq!(error.message(), "src_file_regex invalid");
    assert!(error.to_debug_string().starts_with("ErrorMessage { message: \"src_file_regex invalid\", cause: Some("));
}
