use xwayland_satellite::activation::activation_token;
use xwayland_satellite::args::{parse_args, ArgError, End, Glamor, ParsedFlags};
use xwayland_satellite::launch::{display_name, get_display, launch_args, version};
use xwayland_satellite::text::{parse_i32, parse_u32, print_i32, print_u32, same_text};

fn args(words: &[&str]) -> Vec<String> {
    words.iter().map(|word| word.to_string()).collect()
}

fn flags(words: &[&str]) -> Vec<String> {
    let outcome = parse_args(&args(words));
    assert_eq!(outcome.end, End::Run);
    outcome.flags
}

fn end(words: &[&str]) -> End {
    let outcome = parse_args(&args(words));
    assert!(outcome.flags.is_empty());
    outcome.end
}

#[test]
fn no_arguments_mean_no_options() {
    let outcome = parse_args(&vec![]);
    assert_eq!(outcome.end, End::Run);
    assert_eq!(outcome.display, None);
    assert!(outcome.flags.is_empty());
    assert!(outcome.listenfds.is_empty());
}

#[test]
fn the_display_comes_first() {
    let outcome = parse_args(&args(&[":12"]));
    assert_eq!(outcome.display, Some(":12".into()));
    assert_eq!(outcome.flags, args(&["-audit", "1", "-verbose", "0"]));
    assert_eq!(
        end(&["-ac", ":12"]),
        End::Fail(ArgError::Unrecognized(1))
    );
    assert_eq!(end(&[""]), End::Fail(ArgError::Unrecognized(0)));
}

#[test]
fn options_are_handed_on_in_order() {
    let all = [
        "-verbose", "3", "-nolisten", "tcp", "-listen", "unix", "-glamor", "es", "-extension",
        "GLX", "+extension", "DPMS", "-core", "-auth", "file", "-audit", "4", "-ac",
    ];
    let outcome = parse_args(&args(&all));
    assert_eq!(outcome.auth_file, Some("file".into()));
    assert_eq!(
        outcome.flags,
        args(&[
            "-ac",
            "-audit",
            "4",
            "-auth",
            "file",
            "-core",
            "+extension",
            "DPMS",
            "-extension",
            "GLX",
            "-glamor",
            "es",
            "-listen",
            "unix",
            "-nolisten",
            "tcp",
            "-verbose",
            "3",
        ])
    );
}

#[test]
fn rendering_apis() {
    assert_eq!(
        flags(&["-glamor", "gl"]),
        args(&["-audit", "1", "-glamor", "gl", "-verbose", "0"])
    );
    assert_eq!(
        flags(&["-glamor", "none"]),
        args(&["-audit", "1", "-shm", "-verbose", "0"])
    );
    assert_eq!(
        end(&["-glamor", "vulkan"]),
        End::Fail(ArgError::UnknownRenderingApi(1))
    );
    assert_eq!(end(&["-glamor"]), End::Fail(ArgError::NoRenderingApi));
}

#[test]
fn the_last_word_on_an_extension_counts() {
    assert_eq!(
        flags(&["+extension", "A", "-extension", "A"]),
        args(&["-audit", "1", "-extension", "A", "-verbose", "0"])
    );
    assert_eq!(
        flags(&[
            "-extension", "A", "-extension", "B", "-extension", "C", "+extension", "A"
        ]),
        args(&[
            "-audit", "1", "+extension", "A", "-extension", "C", "-extension", "B", "-verbose",
            "0"
        ])
    );
    assert_eq!(
        flags(&["-listen", "tcp", "-nolisten", "tcp"]),
        args(&["-audit", "1", "-nolisten", "tcp", "-verbose", "0"])
    );
}

#[test]
fn essential_extensions_stay() {
    for extension in ["COMPOSITE", "RANDR", "XFIXES", "X-Resource"] {
        assert_eq!(
            flags(&["-extension", extension]),
            args(&["-audit", "1", "-verbose", "0"])
        );
    }
}

#[test]
fn verbosity_is_raised_or_set() {
    assert_eq!(
        flags(&["-verbose", "-verbose"]),
        args(&["-audit", "1", "-verbose", "2"])
    );
    assert_eq!(
        flags(&["-verbose", "7", "-ac"]),
        args(&["-ac", "-audit", "1", "-verbose", "7"])
    );
}

#[test]
fn descriptors_are_distinct() {
    let outcome = parse_args(&args(&[":1", "-listenfd", "3", "-listenfd", "4"]));
    assert_eq!(outcome.end, End::Run);
    assert_eq!(outcome.listenfds, vec![3, 4]);
    assert_eq!(
        end(&["-listenfd", "3", "-listenfd", "3"]),
        End::Fail(ArgError::DuplicateListenfd)
    );
    assert_eq!(end(&["-listenfd"]), End::Fail(ArgError::NoListenfd));
    assert_eq!(
        end(&["-listenfd", "x"]),
        End::Fail(ArgError::ListenfdNotInteger)
    );
}

#[test]
fn missing_values_are_refused() {
    assert_eq!(end(&["-audit"]), End::Fail(ArgError::AuditNotInteger));
    assert_eq!(end(&["-audit", "x"]), End::Fail(ArgError::AuditNotInteger));
    assert_eq!(end(&["-auth"]), End::Fail(ArgError::NoAuthFile));
    assert_eq!(
        end(&["-auth", "a", "-auth", "b"]),
        End::Fail(ArgError::MultipleAuth)
    );
    assert_eq!(end(&["+extension"]), End::Fail(ArgError::NoExtension));
    assert_eq!(end(&["-extension"]), End::Fail(ArgError::NoExtension));
    assert_eq!(end(&["-listen"]), End::Fail(ArgError::NoProtocol));
    assert_eq!(end(&["-nolisten"]), End::Fail(ArgError::NoProtocol));
}

#[test]
fn some_options_end_the_program() {
    assert_eq!(end(&["-help"]), End::Help);
    assert_eq!(end(&["-version"]), End::Version);
    assert_eq!(end(&["--test-listenfd-support"]), End::TestListenfdSupport);
    let outcome = parse_args(&args(&["-auth", "file", "-help"]));
    assert_eq!(outcome.end, End::Help);
    assert_eq!(outcome.auth_file, Some("file".into()));
}

#[test]
fn flags_start_out_empty() {
    let mut flags = ParsedFlags::new();
    assert_eq!(flags.to_vec(), args(&["-audit", "1", "-verbose", "0"]));
    flags.glamor = Some(Glamor::Off);
    flags.disable_ac = true;
    assert_eq!(
        flags.to_vec(),
        args(&["-ac", "-audit", "1", "-shm", "-verbose", "0"])
    );
}

#[test]
fn the_server_is_started_with_all_of_it() {
    assert_eq!(
        launch_args(&Some(":3".into()), &vec![7, 8], 9, 10, &args(&["-ac"])),
        args(&[
            ":3",
            "-listenfd",
            "7",
            "-listenfd",
            "8",
            "-rootless",
            "-force-xrandr-emulation",
            "-wm",
            "9",
            "-displayfd",
            "10",
            "-ac",
        ])
    );
    assert_eq!(launch_args(&None, &vec![], 9, 10, &vec![]).len(), 6);
}

#[test]
fn the_display_is_named_by_its_number() {
    assert_eq!(display_name("12\n"), ":12");
    assert_eq!(display_name("\n"), ":");
    assert_eq!(display_name(""), ":");
}

#[test]
fn the_version_is_the_commit_if_known() {
    assert_eq!(version("v0.8-3-gabcdef", "0.8.0"), "v0.8-3-gabcdef");
    assert_eq!(version("VERGEN_IDEMPOTENT_OUTPUT", "0.8.0"), "0.8.0");
}

#[test]
fn a_lone_argument_is_the_display() {
    assert_eq!(get_display(&args(&["satellite"])), None);
    assert_eq!(get_display(&args(&["satellite", ":4"])), Some(":4".into()));
}

#[test]
fn numbers_are_read_and_written() {
    assert_eq!(parse_u32("4294967295"), Some(u32::MAX));
    assert_eq!(parse_u32("4294967296"), None);
    assert_eq!(parse_u32("+5"), Some(5));
    assert_eq!(parse_u32("-5"), None);
    assert_eq!(parse_u32(""), None);
    assert_eq!(parse_u32("+"), None);
    assert_eq!(parse_u32("1 "), None);
    assert_eq!(parse_i32("-2147483648"), Some(i32::MIN));
    assert_eq!(parse_i32("2147483648"), None);
    assert_eq!(parse_i32("--1"), None);
    assert_eq!(print_u32(0), "0");
    assert_eq!(print_u32(90210), "90210");
    assert_eq!(print_i32(-17), "-17");
    assert_eq!(parse_i32(&print_i32(i32::MIN)), Some(i32::MIN));
    assert!(same_text("a", "a"));
    assert!(!same_text("a", "A"));
}

#[test]
fn the_token_is_the_first_in_the_environment() {
    assert_eq!(
        activation_token(b"A=1\0XDG_ACTIVATION_TOKEN=tok\0XDG_ACTIVATION_TOKEN=other\0"),
        Some("tok".into())
    );
    assert_eq!(
        activation_token(b"XDG_ACTIVATION_TOKEN="),
        Some(String::new())
    );
    assert_eq!(activation_token(b"MY_XDG_ACTIVATION_TOKEN=tok\0"), None);
    assert_eq!(activation_token(b"XDG_ACTIVATION_TOKEN\0"), None);
    assert_eq!(activation_token(b""), None);
    assert_eq!(activation_token(b"\0\0"), None);
    // The first counts even where it is no text.
    assert_eq!(
        activation_token(b"XDG_ACTIVATION_TOKEN=\xff\0XDG_ACTIVATION_TOKEN=tok\0"),
        None
    );
}
