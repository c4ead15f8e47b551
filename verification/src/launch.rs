//! How the X server is started, and what it is called once it runs.

use vstd::prelude::*;
use crate::args;
use crate::text;
use crate::text::{print_i32, same_text};

verus! {

/// What a build calls itself when it cannot tell which commit it was made from.
pub const UNKNOWN_DESCRIPTION: &'static str = "VERGEN_IDEMPOTENT_OUTPUT";

/// A descriptor to listen on, as an option.
pub open spec fn listen_words(fds: Seq<i32>) -> Seq<Seq<char>>
    decreases fds.len(),
{
    if fds.len() == 0 {
        Seq::empty()
    } else {
        listen_words(fds.drop_last()) + seq!["-listenfd"@, text::decimal_text(fds.last() as int)]
    }
}

/// The options that the X server is started with: the display, the descriptors to listen on, how
/// to reach the bridge and how to say that it is ready, and what the user asked for.
pub open spec fn launch_words(
    display: Option<Seq<char>>,
    listenfds: Seq<i32>,
    wm_fd: i32,
    ready_fd: i32,
    flags: Seq<Seq<char>>,
) -> Seq<Seq<char>> {
    (match display {
        Some(display) => seq![display],
        None => Seq::empty(),
    }) + listen_words(listenfds) + seq![
        "-rootless"@,
        "-force-xrandr-emulation"@,
        "-wm"@,
        text::decimal_text(wm_fd as int),
        "-displayfd"@,
        text::decimal_text(ready_fd as int),
    ] + flags
}

/// Appends the descriptors to listen on.
fn push_listenfds(words: &mut Vec<String>, listenfds: &Vec<i32>)
    ensures
        args::words(final(words)@) == args::words(old(words)@) + listen_words(listenfds@),
{
    let ghost before = args::words(words@);
    let mut i: usize = 0;
    assert(args::words(words@) =~= before + listen_words(listenfds@.take(0)));
    while i < listenfds.len()
        invariant
            i <= listenfds@.len(),
            args::words(words@) == before + listen_words(listenfds@.take(i as int)),
        decreases listenfds.len() - i,
    {
        let ghost so_far = words@;
        words.push("-listenfd".to_owned());
        words.push(print_i32(listenfds[i]));
        proof {
            assert(listenfds@.take(i as int + 1).drop_last() =~= listenfds@.take(i as int));
            assert(args::words(words@) =~= args::words(so_far) + seq![
                "-listenfd"@,
                text::decimal_text(listenfds@[i as int] as int),
            ]);
            assert(args::words(words@) =~= before + listen_words(listenfds@.take(i as int + 1)));
        }
        i += 1;
    }
    assert(listenfds@.take(i as int) =~= listenfds@);
}

/// Appends words.
fn push_all(words: &mut Vec<String>, more: &Vec<String>)
    ensures
        args::words(final(words)@) == args::words(old(words)@) + args::words(more@),
{
    let ghost before = args::words(words@);
    let mut i: usize = 0;
    assert(args::words(words@) =~= before + args::words(more@.take(0)));
    while i < more.len()
        invariant
            i <= more@.len(),
            args::words(words@) == before + args::words(more@.take(i as int)),
        decreases more.len() - i,
    {
        let ghost so_far = words@;
        words.push(more[i].clone());
        proof {
            assert(args::words(more@.take(i as int + 1)) =~= args::words(
                more@.take(i as int),
            ).push(more@[i as int]@));
            assert(args::words(words@) =~= args::words(so_far).push(more@[i as int]@));
        }
        i += 1;
    }
    assert(more@.take(i as int) =~= more@);
}

/// The options that the X server is started with.
pub fn launch_args(
    display: &Option<String>,
    listenfds: &Vec<i32>,
    wm_fd: i32,
    ready_fd: i32,
    flags: &Vec<String>,
) -> (words: Vec<String>)
    ensures
        args::words(words@) == launch_words(
            args::word(*display),
            listenfds@,
            wm_fd,
            ready_fd,
            args::words(flags@),
        ),
{
    let mut words: Vec<String> = Vec::new();
    if let Some(display) = display {
        words.push(display.clone());
    }
    let ghost named = args::words(words@);
    assert(named =~= (match args::word(*display) {
        Some(display) => seq![display],
        None => Seq::empty(),
    }));
    push_listenfds(&mut words, listenfds);
    let ghost listening = words@;
    words.push("-rootless".to_owned());
    words.push("-force-xrandr-emulation".to_owned());
    words.push("-wm".to_owned());
    words.push(print_i32(wm_fd));
    words.push("-displayfd".to_owned());
    words.push(print_i32(ready_fd));
    assert(args::words(words@) =~= args::words(listening) + seq![
        "-rootless"@,
        "-force-xrandr-emulation"@,
        "-wm"@,
        text::decimal_text(wm_fd as int),
        "-displayfd"@,
        text::decimal_text(ready_fd as int),
    ]);
    push_all(&mut words, flags);
    words
}

/// The display of an X server that has said its number, on a line of its own.
pub fn display_name(line: &str) -> (name: String)
    ensures
        name@ == seq![':'] + (if line@.len() == 0 {
            line@
        } else {
            line@.drop_last()
        }),
{
    proof {
        reveal_strlit(":");
    }
    let mut name = ":".to_owned();
    let length: usize = line.unicode_len();
    if length > 0 {
        let number = line.substring_char(0, length - 1);
        assert(number@ =~= line@.drop_last());
        name.append(number);
    }
    assert(name@ =~= seq![':'] + (if line@.len() == 0 {
        line@
    } else {
        line@.drop_last()
    }));
    name
}

/// What the program calls its version: the commit that it was made from, or its release.
pub fn version<'a>(description: &'a str, release: &'a str) -> (version: &'a str)
    ensures
        version@ == (if description@ == UNKNOWN_DESCRIPTION@ {
            release@
        } else {
            description@
        }),
{
    if same_text(description, UNKNOWN_DESCRIPTION) {
        release
    } else {
        description
    }
}

/// The display among the arguments of a program that takes nothing else. The first argument is the
/// program's own name.
pub fn get_display(args: &Vec<String>) -> (display: Option<String>)
    requires
        args@.len() <= 2,
    ensures
        args::word(display) == (if args@.len() == 2 {
            Some(args@[1]@)
        } else {
            None
        }),
{
    if args.len() == 2 {
        Some(args[1].clone())
    } else {
        None
    }
}

/// A line that the X server writes for a display number is read back as that number.
pub proof fn law_display_is_read_back(n: u32, newline: char)
    ensures
        ({
            let line = text::decimal_text(n as int).push(newline);
            let name = seq![':'] + line.drop_last();
            &&& name[0] == ':'
            &&& text::text_as_u32(name.skip(1)) == Some(n)
        }),
{
    let digits = text::decimal_text(n as int);
    let name = seq![':'] + digits.push(newline).drop_last();
    assert(digits.push(newline).drop_last() =~= digits);
    assert(name.skip(1) =~= digits);
    text::law_digits_stand_for_their_number(n as nat);
}

/// The X server is started with the display first, if one was asked for, then with each socket to
/// listen on, then with the descriptors of the window manager and for its readiness, and last with
/// the flags as they are.
pub proof fn law_launch_order(
    display: Option<Seq<char>>,
    listenfds: Seq<i32>,
    wm_fd: i32,
    ready_fd: i32,
    flags: Seq<Seq<char>>,
    k: int,
)
    requires
        0 <= k < listenfds.len() || listenfds.len() == 0,
    ensures
        ({
            let all = launch_words(display, listenfds, wm_fd, ready_fd, flags);
            let first = if display is Some { 1int } else { 0 };
            let own = first + 2 * listenfds.len();
            &&& all.len() == own + 6 + flags.len()
            &&& display is Some ==> all[0] == display->0
            &&& 0 <= k < listenfds.len() ==> all[first + 2 * k] == "-listenfd"@ && all[first + 2 * k
                + 1] == text::decimal_text(listenfds[k] as int)
            &&& all[own] == "-rootless"@
            &&& all[own + 1] == "-force-xrandr-emulation"@
            &&& all[own + 2] == "-wm"@
            &&& all[own + 3] == text::decimal_text(wm_fd as int)
            &&& all[own + 4] == "-displayfd"@
            &&& all[own + 5] == text::decimal_text(ready_fd as int)
            &&& forall|j: int| 0 <= j < flags.len() ==> all[own + 6 + j] == #[trigger] flags[j]
        }),
{
    lemma_listen_words(listenfds, k);
}

proof fn lemma_listen_words(fds: Seq<i32>, k: int)
    ensures
        listen_words(fds).len() == 2 * fds.len(),
        0 <= k < fds.len() ==> listen_words(fds)[2 * k] == "-listenfd"@ && listen_words(fds)[2 * k
            + 1] == text::decimal_text(fds[k] as int),
    decreases fds.len(),
{
    if fds.len() > 0 {
        lemma_listen_words(fds.drop_last(), k);
    }
}

} // verus!
