//! Command line arguments: which options are taken over and what the X server is started with.

use vstd::prelude::*;
use crate::text;
use crate::text::{parse_i32, parse_u32, print_u32, same_text};

verus! {

/// What draws with graphics acceleration in the X server.
#[derive(Clone, Copy, Debug, PartialEq, Eq, Structural)]
pub enum Glamor {
    Gl,
    Es,
    Off,
}

/// The options that are handed on to the X server.
#[derive(Debug)]
pub struct ParsedFlags {
    pub disable_ac: bool,
    pub audit_level: u32,
    pub auth_file: Option<String>,
    pub coredump: bool,
    pub extension_plus: Vec<String>,
    pub extension_minus: Vec<String>,
    pub glamor: Option<Glamor>,
    pub listen_plus: Vec<String>,
    pub listen_minus: Vec<String>,
    pub verbosity: u32,
}

/// What [`ParsedFlags`] hold.
#[verifier::ext_equal]
pub struct FlagsView {
    pub disable_ac: bool,
    pub audit_level: u32,
    pub auth_file: Option<Seq<char>>,
    pub coredump: bool,
    pub extension_plus: Seq<Seq<char>>,
    pub extension_minus: Seq<Seq<char>>,
    pub glamor: Option<Glamor>,
    pub listen_plus: Seq<Seq<char>>,
    pub listen_minus: Seq<Seq<char>>,
    pub verbosity: u32,
}

/// What is known while arguments are read.
#[derive(Debug)]
pub struct ArgsState {
    pub flags: ParsedFlags,
    pub listenfds: Vec<i32>,
}

/// What [`ArgsState`] holds.
#[verifier::ext_equal]
pub struct ArgsView {
    pub flags: FlagsView,
    pub listenfds: Seq<i32>,
}

/// Why arguments are refused.
#[derive(Clone, Copy, Debug, PartialEq, Eq, Structural)]
pub enum ArgError {
    AuditNotInteger,
    MultipleAuth,
    NoAuthFile,
    NoExtension,
    NoRenderingApi,
    /// The index of the argument that names no rendering API.
    UnknownRenderingApi(usize),
    NoProtocol,
    NoListenfd,
    ListenfdNotInteger,
    DuplicateListenfd,
    /// The index of the argument that is not known.
    Unrecognized(usize),
}

/// How reading arguments ends.
#[derive(Clone, Copy, Debug, PartialEq, Eq, Structural)]
pub enum End {
    Run,
    Help,
    Version,
    TestListenfdSupport,
    Fail(ArgError),
}

/// What the arguments come to. Whatever the end, the authorization file has to be readable first.
#[derive(Debug)]
pub struct ParseOutcome {
    pub end: End,
    pub auth_file: Option<String>,
    pub display: Option<String>,
    pub listenfds: Vec<i32>,
    pub flags: Vec<String>,
}

/// One argument read: the next to read, or the end.
pub enum ParseStep {
    Next(ArgsView, int),
    Stop(End),
}

/// The characters of a list of strings.
pub open spec fn words(strings: Seq<String>) -> Seq<Seq<char>> {
    strings.map_values(|s: String| s@)
}

/// The characters of an optional string.
pub open spec fn word(string: Option<String>) -> Option<Seq<char>> {
    match string {
        Some(string) => Some(string@),
        None => None,
    }
}

impl View for ParsedFlags {
    type V = FlagsView;

    open spec fn view(&self) -> FlagsView {
        FlagsView {
            disable_ac: self.disable_ac,
            audit_level: self.audit_level,
            auth_file: word(self.auth_file),
            coredump: self.coredump,
            extension_plus: words(self.extension_plus@),
            extension_minus: words(self.extension_minus@),
            glamor: self.glamor,
            listen_plus: words(self.listen_plus@),
            listen_minus: words(self.listen_minus@),
            verbosity: self.verbosity,
        }
    }
}

impl View for ArgsState {
    type V = ArgsView;

    open spec fn view(&self) -> ArgsView {
        ArgsView { flags: self.flags@, listenfds: self.listenfds@ }
    }
}

/// Nothing asked for: only the audit level has a value other than nothing.
pub open spec fn default_flags() -> FlagsView {
    FlagsView {
        disable_ac: false,
        audit_level: 1,
        auth_file: None,
        coredump: false,
        extension_plus: Seq::empty(),
        extension_minus: Seq::empty(),
        glamor: None,
        listen_plus: Seq::empty(),
        listen_minus: Seq::empty(),
        verbosity: 0,
    }
}

/// An option before each of a list of values.
pub open spec fn each_with(option: Seq<char>, values: Seq<Seq<char>>) -> Seq<Seq<char>>
    decreases values.len(),
{
    if values.len() == 0 {
        Seq::empty()
    } else {
        each_with(option, values.drop_last()) + seq![option, values.last()]
    }
}

/// The options that choose a rendering API. Drawing without acceleration is asked for in the way
/// that every X server understands.
pub open spec fn glamor_words(glamor: Option<Glamor>) -> Seq<Seq<char>> {
    match glamor {
        Some(Glamor::Gl) => seq!["-glamor"@, "gl"@],
        Some(Glamor::Es) => seq!["-glamor"@, "es"@],
        Some(Glamor::Off) => seq!["-shm"@],
        None => Seq::empty(),
    }
}

/// An option that is there or not.
pub open spec fn if_set(set: bool, option: Seq<char>) -> Seq<Seq<char>> {
    if set {
        seq![option]
    } else {
        Seq::empty()
    }
}

/// The options with one value each, or none, that come first.
pub open spec fn leading_words(flags: FlagsView) -> Seq<Seq<char>> {
    if_set(flags.disable_ac, "-ac"@) + seq![
        "-audit"@,
        text::decimal_text(flags.audit_level as int),
    ] + (match flags.auth_file {
        Some(file) => seq!["-auth"@, file],
        None => Seq::empty(),
    }) + if_set(flags.coredump, "-core"@)
}

/// The options that the X server is started with.
pub open spec fn flag_words(flags: FlagsView) -> Seq<Seq<char>> {
    leading_words(flags) + each_with("+extension"@, flags.extension_plus) + each_with(
        "-extension"@,
        flags.extension_minus,
    ) + glamor_words(flags.glamor) + each_with("-listen"@, flags.listen_plus) + each_with(
        "-nolisten"@,
        flags.listen_minus,
    ) + seq!["-verbose"@, text::decimal_text(flags.verbosity as int)]
}

/// Whether a word is found first at a place in a list.
pub open spec fn first_at(list: Seq<Seq<char>>, word: Seq<char>, k: int) -> bool {
    &&& 0 <= k < list.len()
    &&& list[k] == word
    &&& forall|j: int| 0 <= j < k ==> #[trigger] list[j] != word
}

/// A list without the first of a word, whose place the last word takes.
pub open spec fn dropped(list: Seq<Seq<char>>, word: Seq<char>) -> Seq<Seq<char>> {
    if exists|k: int| first_at(list, word, k) {
        let k = choose|k: int| first_at(list, word, k);
        list.update(k, list.last()).drop_last()
    } else {
        list
    }
}

/// The word after another.
pub open spec fn following(args: Seq<Seq<char>>, i: int) -> Option<Seq<char>> {
    if i + 1 < args.len() {
        Some(args[i + 1])
    } else {
        None
    }
}

/// Whether an extension cannot be switched off, because the bridge needs it.
pub open spec fn is_essential(extension: Seq<char>) -> bool {
    extension == "COMPOSITE"@ || extension == "RANDR"@ || extension == "XFIXES"@ || extension
        == "X-Resource"@
}

/// The rendering API that a word names.
pub open spec fn glamor_named(api: Seq<char>) -> Option<Glamor> {
    if api == "gl"@ {
        Some(Glamor::Gl)
    } else if api == "es"@ {
        Some(Glamor::Es)
    } else if api == "none"@ {
        Some(Glamor::Off)
    } else {
        None
    }
}

/// Options that need no value.
pub open spec fn plain_step(v: ArgsView, arg: Seq<char>, i: int) -> ParseStep {
    if arg == "-ac"@ {
        ParseStep::Next(ArgsView { flags: FlagsView { disable_ac: true, ..v.flags }, ..v }, i + 1)
    } else if arg == "-core"@ {
        ParseStep::Next(ArgsView { flags: FlagsView { coredump: true, ..v.flags }, ..v }, i + 1)
    } else if arg == "-help"@ {
        ParseStep::Stop(End::Help)
    } else if arg == "--test-listenfd-support"@ {
        ParseStep::Stop(End::TestListenfdSupport)
    } else if arg == "-version"@ {
        ParseStep::Stop(End::Version)
    } else {
        ParseStep::Stop(End::Fail(ArgError::Unrecognized(i as usize)))
    }
}

/// `-audit`.
pub open spec fn audit_step(v: ArgsView, value: Option<Seq<char>>, i: int) -> ParseStep {
    match value {
        Some(value) if text::text_as_u32(value) is Some => ParseStep::Next(
            ArgsView {
                flags: FlagsView { audit_level: text::text_as_u32(value)->0, ..v.flags },
                ..v
            },
            i + 2,
        ),
        _ => ParseStep::Stop(End::Fail(ArgError::AuditNotInteger)),
    }
}

/// `-auth`, which may be given once.
pub open spec fn auth_step(v: ArgsView, value: Option<Seq<char>>, i: int) -> ParseStep {
    if v.flags.auth_file is Some {
        ParseStep::Stop(End::Fail(ArgError::MultipleAuth))
    } else {
        match value {
            Some(file) => ParseStep::Next(
                ArgsView { flags: FlagsView { auth_file: Some(file), ..v.flags }, ..v },
                i + 2,
            ),
            None => ParseStep::Stop(End::Fail(ArgError::NoAuthFile)),
        }
    }
}

/// `+extension` and `-extension`: the last word on an extension counts.
pub open spec fn extension_step(
    v: ArgsView,
    plus: bool,
    value: Option<Seq<char>>,
    i: int,
) -> ParseStep {
    match value {
        Some(extension) => ParseStep::Next(
            if plus {
                ArgsView {
                    flags: FlagsView {
                        extension_minus: dropped(v.flags.extension_minus, extension),
                        extension_plus: v.flags.extension_plus.push(extension),
                        ..v.flags
                    },
                    ..v
                }
            } else if is_essential(extension) {
                v
            } else {
                ArgsView {
                    flags: FlagsView {
                        extension_plus: dropped(v.flags.extension_plus, extension),
                        extension_minus: v.flags.extension_minus.push(extension),
                        ..v.flags
                    },
                    ..v
                }
            },
            i + 2,
        ),
        None => ParseStep::Stop(End::Fail(ArgError::NoExtension)),
    }
}

/// `-glamor`.
pub open spec fn glamor_step(v: ArgsView, value: Option<Seq<char>>, i: int) -> ParseStep {
    match value {
        Some(api) => match glamor_named(api) {
            Some(glamor) => ParseStep::Next(
                ArgsView { flags: FlagsView { glamor: Some(glamor), ..v.flags }, ..v },
                i + 2,
            ),
            None => ParseStep::Stop(
                End::Fail(ArgError::UnknownRenderingApi((i + 1) as usize)),
            ),
        },
        None => ParseStep::Stop(End::Fail(ArgError::NoRenderingApi)),
    }
}

/// `-listen` and `-nolisten`: the last word on a protocol counts.
pub open spec fn listen_step(v: ArgsView, plus: bool, value: Option<Seq<char>>, i: int) -> ParseStep {
    match value {
        Some(protocol) => ParseStep::Next(
            if plus {
                ArgsView {
                    flags: FlagsView {
                        listen_minus: dropped(v.flags.listen_minus, protocol),
                        listen_plus: v.flags.listen_plus.push(protocol),
                        ..v.flags
                    },
                    ..v
                }
            } else {
                ArgsView {
                    flags: FlagsView {
                        listen_plus: dropped(v.flags.listen_plus, protocol),
                        listen_minus: v.flags.listen_minus.push(protocol),
                        ..v.flags
                    },
                    ..v
                }
            },
            i + 2,
        ),
        None => ParseStep::Stop(End::Fail(ArgError::NoProtocol)),
    }
}

/// `-listenfd`: no descriptor may be given twice.
pub open spec fn listenfd_step(v: ArgsView, value: Option<Seq<char>>, i: int) -> ParseStep {
    match value {
        Some(value) => match text::text_as_i32(value) {
            Some(fd) => if v.listenfds.contains(fd) {
                ParseStep::Stop(End::Fail(ArgError::DuplicateListenfd))
            } else {
                ParseStep::Next(ArgsView { listenfds: v.listenfds.push(fd), ..v }, i + 2)
            },
            None => ParseStep::Stop(End::Fail(ArgError::ListenfdNotInteger)),
        },
        None => ParseStep::Stop(End::Fail(ArgError::NoListenfd)),
    }
}

/// `-verbose`: sets the level if a number follows, and raises it by one otherwise.
pub open spec fn verbose_step(v: ArgsView, value: Option<Seq<char>>, i: int) -> ParseStep {
    match value {
        Some(value) if text::text_as_u32(value) is Some => ParseStep::Next(
            ArgsView {
                flags: FlagsView { verbosity: text::text_as_u32(value)->0, ..v.flags },
                ..v
            },
            i + 2,
        ),
        _ => ParseStep::Next(
            ArgsView {
                flags: FlagsView {
                    verbosity: (if v.flags.verbosity == u32::MAX {
                        0
                    } else {
                        v.flags.verbosity + 1
                    }) as u32,
                    ..v.flags
                },
                ..v
            },
            i + 1,
        ),
    }
}

/// What the argument at `i` comes to.
pub open spec fn parse_step(v: ArgsView, args: Seq<Seq<char>>, i: int) -> ParseStep {
    let arg = args[i];
    let value = following(args, i);
    if arg == "-audit"@ {
        audit_step(v, value, i)
    } else if arg == "-auth"@ {
        auth_step(v, value, i)
    } else if arg == "+extension"@ {
        extension_step(v, true, value, i)
    } else if arg == "-extension"@ {
        extension_step(v, false, value, i)
    } else if arg == "-glamor"@ {
        glamor_step(v, value, i)
    } else if arg == "-listen"@ {
        listen_step(v, true, value, i)
    } else if arg == "-nolisten"@ {
        listen_step(v, false, value, i)
    } else if arg == "-listenfd"@ {
        listenfd_step(v, value, i)
    } else if arg == "-verbose"@ {
        verbose_step(v, value, i)
    } else {
        plain_step(v, arg, i)
    }
}

/// What the arguments from `i` on come to.
pub open spec fn parse_from(v: ArgsView, args: Seq<Seq<char>>, i: int) -> (ArgsView, End)
    decreases args.len() - i,
{
    if i >= args.len() {
        (v, End::Run)
    } else {
        match parse_step(v, args, i) {
            ParseStep::Next(next, j) => if j > i {
                parse_from(next, args, j)
            } else {
                (v, End::Run)
            },
            ParseStep::Stop(end) => (v, end),
        }
    }
}

/// Whether the first argument names a display.
pub open spec fn names_display(args: Seq<Seq<char>>) -> bool {
    args.len() > 0 && args[0].len() > 0 && args[0][0] == ':'
}

/// What all arguments come to.
pub open spec fn parsed(args: Seq<Seq<char>>) -> (ArgsView, End) {
    let start = ArgsView { flags: default_flags(), listenfds: Seq::empty() };
    parse_from(
        start,
        args,
        if names_display(args) {
            1
        } else {
            0
        },
    )
}

proof fn lemma_first_is_unique(list: Seq<Seq<char>>, word: Seq<char>, k: int)
    requires
        first_at(list, word, k),
    ensures
        dropped(list, word) == list.update(k, list.last()).drop_last(),
{
    let chosen = choose|j: int| first_at(list, word, j);
    assert(first_at(list, word, chosen));
    assert(chosen == k) by {
        if chosen < k {
            assert(list[chosen] != word);
        }
        if k < chosen {
            assert(list[k] != word);
        }
    }
}

/// Takes the first of a word out of a list; the last word takes its place.
fn drop_first(list: &mut Vec<String>, unwanted: &String)
    ensures
        words(final(list)@) == dropped(words(old(list)@), unwanted@),
{
    let ghost before = words(list@);
    let mut i: usize = 0;
    while i < list.len()
        invariant
            i <= list@.len(),
            *list == *old(list),
            before == words(list@),
            forall|j: int| 0 <= j < i ==> #[trigger] before[j] != unwanted@,
        decreases list.len() - i,
    {
        assert(before[i as int] == list@[i as int]@);
        if list[i] == *unwanted {
            assert(first_at(before, unwanted@, i as int));
            proof {
                lemma_first_is_unique(before, unwanted@, i as int);
            }
            list.swap_remove(i);
            assert(words(list@) =~= before.update(i as int, before.last()).drop_last());
            return;
        }
        i += 1;
    }
    assert(!(exists|k: int| first_at(before, unwanted@, k)));
}

/// Appends an option before each of a list of values.
fn push_each(words_out: &mut Vec<String>, option: &str, values: &Vec<String>)
    ensures
        words(final(words_out)@) == words(old(words_out)@) + each_with(option@, words(values@)),
{
    let ghost before = words(words_out@);
    let ghost all = words(values@);
    let mut i: usize = 0;
    assert(words(words_out@) =~= before + each_with(option@, all.take(0)));
    while i < values.len()
        invariant
            i <= values@.len(),
            all == words(values@),
            words(words_out@) == before + each_with(option@, all.take(i as int)),
        decreases values.len() - i,
    {
        let ghost so_far = words_out@;
        words_out.push(option.to_owned());
        words_out.push(values[i].clone());
        proof {
            assert(all.take(i as int + 1).drop_last() =~= all.take(i as int));
            assert(all.take(i as int + 1).last() == values@[i as int]@);
            assert(words(words_out@) =~= words(so_far) + seq![option@, values@[i as int]@]);
            assert(words(words_out@) =~= before + each_with(option@, all.take(i as int + 1)));
        }
        i += 1;
    }
    assert(all.take(i as int) =~= all);
}

/// Appends a word.
fn push_word(words_out: &mut Vec<String>, word_in: &str)
    ensures
        words(final(words_out)@) == words(old(words_out)@).push(word_in@),
{
    words_out.push(word_in.to_owned());
    assert(words(words_out@) =~= words(old(words_out)@).push(word_in@));
}

/// Appends the options that choose a rendering API.
fn push_glamor(words_out: &mut Vec<String>, glamor: Option<Glamor>)
    ensures
        words(final(words_out)@) == words(old(words_out)@) + glamor_words(glamor),
{
    match glamor {
        Some(Glamor::Gl) => {
            push_word(words_out, "-glamor");
            push_word(words_out, "gl");
        },
        Some(Glamor::Es) => {
            push_word(words_out, "-glamor");
            push_word(words_out, "es");
        },
        Some(Glamor::Off) => {
            push_word(words_out, "-shm");
        },
        None => {},
    }
    assert(words(words_out@) =~= words(old(words_out)@) + glamor_words(glamor));
}

impl ParsedFlags {
    /// Nothing asked for.
    pub fn new() -> (flags: ParsedFlags)
        ensures
            flags@ == default_flags(),
    {
        let flags = ParsedFlags {
            disable_ac: false,
            audit_level: 1,
            auth_file: None,
            coredump: false,
            extension_plus: Vec::new(),
            extension_minus: Vec::new(),
            glamor: None,
            listen_plus: Vec::new(),
            listen_minus: Vec::new(),
            verbosity: 0,
        };
        assert(flags@ =~= default_flags());
        flags
    }

    /// The options that come first.
    fn leading(&self) -> (options: Vec<String>)
        ensures
            words(options@) == leading_words(self@),
    {
        let mut ret: Vec<String> = Vec::new();
        assert(words(ret@) =~= Seq::<Seq<char>>::empty());
        if self.disable_ac {
            push_word(&mut ret, "-ac");
        }
        push_word(&mut ret, "-audit");
        let audit = print_u32(self.audit_level);
        push_word(&mut ret, audit.as_str());
        if let Some(auth) = &self.auth_file {
            push_word(&mut ret, "-auth");
            push_word(&mut ret, auth.as_str());
        }
        if self.coredump {
            push_word(&mut ret, "-core");
        }
        assert(words(ret@) =~= leading_words(self@));
        ret
    }

    /// The options that the X server is started with.
    pub fn to_vec(&self) -> (options: Vec<String>)
        ensures
            words(options@) == flag_words(self@),
    {
        let mut ret = self.leading();
        push_each(&mut ret, "+extension", &self.extension_plus);
        push_each(&mut ret, "-extension", &self.extension_minus);
        push_glamor(&mut ret, self.glamor);
        push_each(&mut ret, "-listen", &self.listen_plus);
        push_each(&mut ret, "-nolisten", &self.listen_minus);
        let ghost listed = words(ret@);
        push_word(&mut ret, "-verbose");
        let verbosity = print_u32(self.verbosity);
        push_word(&mut ret, verbosity.as_str());
        assert(words(ret@) =~= listed + seq!["-verbose"@, verbosity@]);
        ret
    }
}

impl ArgsState {
    /// Nothing read yet.
    fn new() -> (state: ArgsState)
        ensures
            state@ == (ArgsView { flags: default_flags(), listenfds: Seq::empty() }),
    {
        let state = ArgsState { flags: ParsedFlags::new(), listenfds: Vec::new() };
        assert(state@ =~= (ArgsView { flags: default_flags(), listenfds: Seq::empty() }));
        state
    }

    /// Takes an extension to be switched on or off.
    fn extension(&mut self, plus: bool, name: &String)
        ensures
            extension_step(old(self)@, plus, Some(name@), 0) == ParseStep::Next(final(self)@, 2),
    {
        if plus {
            drop_first(&mut self.flags.extension_minus, name);
            push_word(&mut self.flags.extension_plus, name.as_str());
        } else if !(same_text(name.as_str(), "COMPOSITE") || same_text(name.as_str(), "RANDR")
            || same_text(name.as_str(), "XFIXES") || same_text(name.as_str(), "X-Resource")) {
            drop_first(&mut self.flags.extension_plus, name);
            push_word(&mut self.flags.extension_minus, name.as_str());
        }
    }

    /// Takes a protocol to listen on or not.
    fn listen(&mut self, plus: bool, protocol: &String)
        ensures
            listen_step(old(self)@, plus, Some(protocol@), 0) == ParseStep::Next(final(self)@, 2),
    {
        if plus {
            drop_first(&mut self.flags.listen_minus, protocol);
            push_word(&mut self.flags.listen_plus, protocol.as_str());
        } else {
            drop_first(&mut self.flags.listen_plus, protocol);
            push_word(&mut self.flags.listen_minus, protocol.as_str());
        }
    }

    /// Takes a descriptor to listen on, unless it is there already.
    fn listenfd(&mut self, fd: i32) -> (new: bool)
        ensures
            new == !old(self).listenfds@.contains(fd),
            final(self)@ == (if new {
                ArgsView { listenfds: old(self)@.listenfds.push(fd), ..old(self)@ }
            } else {
                old(self)@
            }),
    {
        let mut i: usize = 0;
        while i < self.listenfds.len()
            invariant
                i <= self.listenfds@.len(),
                *self == *old(self),
                forall|j: int| 0 <= j < i ==> self.listenfds@[j] != fd,
            decreases self.listenfds.len() - i,
        {
            if self.listenfds[i] == fd {
                assert(self.listenfds@[i as int] == fd);
                return false;
            }
            i += 1;
        }
        self.listenfds.push(fd);
        true
    }

    /// Reads the argument at `i`, with the one after it where it is a value.
    fn step(&mut self, args: &Vec<String>, i: usize) -> (next: Result<usize, End>)
        requires
            i < args@.len(),
        ensures
            match parse_step(old(self)@, words(args@), i as int) {
                ParseStep::Next(state, j) => next is Ok && next->Ok_0 == j && final(self)@ == state
                    && i < j,
                ParseStep::Stop(end) => next is Err && next->Err_0 == end && final(self)@ == old(
                    self,
                )@,
            },
    {
        let ghost all = words(args@);
        let arg: &String = &args[i];
        let word_here: &str = arg.as_str();
        let value: Option<&String> = if i < args.len() - 1 {
            Some(&args[i + 1])
        } else {
            None
        };
        assert(all[i as int] == word_here@);
        assert(match value {
            Some(text) => following(all, i as int) == Some(text@),
            None => following(all, i as int) is None,
        });
        if same_text(word_here, "-audit") {
            if let Some(text) = value {
                if let Some(level) = parse_u32(text.as_str()) {
                    self.flags.audit_level = level;
                    return Ok(i + 2);
                }
            }
            return Err(End::Fail(ArgError::AuditNotInteger));
        }
        if same_text(word_here, "-auth") {
            if self.flags.auth_file.is_some() {
                return Err(End::Fail(ArgError::MultipleAuth));
            }
            return match value {
                Some(file) => {
                    self.flags.auth_file = Some(file.clone());
                    Ok(i + 2)
                },
                None => Err(End::Fail(ArgError::NoAuthFile)),
            };
        }
        let plus = same_text(word_here, "+extension");
        if plus || same_text(word_here, "-extension") {
            return match value {
                Some(name) => {
                    self.extension(plus, name);
                    Ok(i + 2)
                },
                None => Err(End::Fail(ArgError::NoExtension)),
            };
        }
        if same_text(word_here, "-glamor") {
            return self.glamor(value, i);
        }
        let listen = same_text(word_here, "-listen");
        if listen || same_text(word_here, "-nolisten") {
            return match value {
                Some(protocol) => {
                    self.listen(listen, protocol);
                    Ok(i + 2)
                },
                None => Err(End::Fail(ArgError::NoProtocol)),
            };
        }
        if same_text(word_here, "-listenfd") {
            return match value {
                Some(text) => match parse_i32(text.as_str()) {
                    Some(fd) => if self.listenfd(fd) {
                        Ok(i + 2)
                    } else {
                        Err(End::Fail(ArgError::DuplicateListenfd))
                    },
                    None => Err(End::Fail(ArgError::ListenfdNotInteger)),
                },
                None => Err(End::Fail(ArgError::NoListenfd)),
            };
        }
        if same_text(word_here, "-verbose") {
            if let Some(text) = value {
                if let Some(level) = parse_u32(text.as_str()) {
                    self.flags.verbosity = level;
                    return Ok(i + 2);
                }
            }
            self.flags.verbosity = self.flags.verbosity.wrapping_add(1);
            return Ok(i + 1);
        }
        self.plain(word_here, i)
    }

    /// Takes the rendering API to draw with.
    fn glamor(&mut self, value: Option<&String>, i: usize) -> (next: Result<usize, End>)
        requires
            value is Some ==> i + 2 <= usize::MAX,
        ensures
            match glamor_step(
                old(self)@,
                match value {
                    Some(text) => Some(text@),
                    None => None,
                },
                i as int,
            ) {
                ParseStep::Next(state, j) => next is Ok && next->Ok_0 == j && final(self)@ == state,
                ParseStep::Stop(end) => next is Err && next->Err_0 == end && final(self)@ == old(
                    self,
                )@,
            },
    {
        match value {
            Some(api) => {
                if same_text(api.as_str(), "gl") {
                    self.flags.glamor = Some(Glamor::Gl);
                } else if same_text(api.as_str(), "es") {
                    self.flags.glamor = Some(Glamor::Es);
                } else if same_text(api.as_str(), "none") {
                    self.flags.glamor = Some(Glamor::Off);
                } else {
                    return Err(End::Fail(ArgError::UnknownRenderingApi(i + 1)));
                }
                Ok(i + 2)
            },
            None => Err(End::Fail(ArgError::NoRenderingApi)),
        }
    }

    /// Reads an option that has no value.
    fn plain(&mut self, word_here: &str, i: usize) -> (next: Result<usize, End>)
        requires
            i < usize::MAX,
        ensures
            match plain_step(old(self)@, word_here@, i as int) {
                ParseStep::Next(state, j) => next is Ok && next->Ok_0 == j && final(self)@ == state,
                ParseStep::Stop(end) => next is Err && next->Err_0 == end && final(self)@ == old(
                    self,
                )@,
            },
    {
        if same_text(word_here, "-ac") {
            self.flags.disable_ac = true;
            Ok(i + 1)
        } else if same_text(word_here, "-core") {
            self.flags.coredump = true;
            Ok(i + 1)
        } else if same_text(word_here, "-help") {
            Err(End::Help)
        } else if same_text(word_here, "--test-listenfd-support") {
            Err(End::TestListenfdSupport)
        } else if same_text(word_here, "-version") {
            Err(End::Version)
        } else {
            Err(End::Fail(ArgError::Unrecognized(i)))
        }
    }
}

/// Reads the arguments that follow the program's name. The first may name a display; without any
/// argument the X server is started with no options at all.
pub fn parse_args(args: &Vec<String>) -> (outcome: ParseOutcome)
    ensures
        ({
            let (v, end) = parsed(words(args@));
            &&& outcome.end == end
            &&& word(outcome.auth_file) == v.flags.auth_file
            &&& outcome.listenfds@ == v.listenfds
            &&& word(outcome.display) == (if names_display(words(args@)) {
                Some(args@[0]@)
            } else {
                None
            })
            &&& words(outcome.flags@) == (if end is Run && args@.len() > 0 {
                flag_words(v.flags)
            } else {
                Seq::<Seq<char>>::empty()
            })
        }),
{
    let ghost all = words(args@);
    let mut state = ArgsState::new();
    let mut i: usize = 0;
    let mut display: Option<String> = None;
    let mut flags: Vec<String> = Vec::new();
    assert(words(flags@) =~= Seq::<Seq<char>>::empty());
    if args.len() > 0 {
        let first: &str = args[0].as_str();
        assert(all[0] == first@);
        if first.unicode_len() > 0 && first.get_char(0) == ':' {
            display = Some(args[0].clone());
            i = 1;
        }
    }
    while i < args.len()
        invariant
            all == words(args@),
            i <= args@.len(),
            parse_from(state@, all, i as int) == parsed(all),
            words(flags@) == Seq::<Seq<char>>::empty(),
            word(display) == (if names_display(all) {
                Some(args@[0]@)
            } else {
                None
            }),
        decreases args.len() - i,
    {
        assert(all[i as int] == args@[i as int]@);
        match state.step(args, i) {
            Ok(next) => {
                assert(parse_from(state@, all, next as int) == parsed(all));
                i = next;
            },
            Err(end) => {
                return ParseOutcome {
                    end,
                    auth_file: state.flags.auth_file,
                    display,
                    listenfds: state.listenfds,
                    flags,
                };
            },
        }
    }
    if args.len() > 0 {
        flags = state.flags.to_vec();
    }
    ParseOutcome {
        end: End::Run,
        auth_file: state.flags.auth_file,
        display,
        listenfds: state.listenfds,
        flags,
    }
}

/// What holds of the options whatever has been read: no essential extension is switched off, and
/// no descriptor is there twice.
pub open spec fn sound(v: ArgsView) -> bool {
    &&& v.listenfds.no_duplicates()
    &&& forall|k: int|
        0 <= k < v.flags.extension_minus.len() ==> !is_essential(
            #[trigger] v.flags.extension_minus[k],
        )
}

proof fn lemma_dropped_elements(list: Seq<Seq<char>>, word: Seq<char>)
    ensures
        forall|k: int|
            0 <= k < dropped(list, word).len() ==> list.contains(#[trigger] dropped(list, word)[k]),
{
    if exists|k: int| first_at(list, word, k) {
        let k = choose|k: int| first_at(list, word, k);
        assert forall|j: int| 0 <= j < dropped(list, word).len() implies list.contains(
            #[trigger] dropped(list, word)[j],
        ) by {
            if j == k {
                assert(list[list.len() - 1] == dropped(list, word)[j]);
            } else {
                assert(list[j] == dropped(list, word)[j]);
            }
        }
    }
}

proof fn lemma_step_is_sound(v: ArgsView, args: Seq<Seq<char>>, i: int)
    requires
        sound(v),
    ensures
        parse_step(v, args, i) matches ParseStep::Next(next, _) ==> sound(next),
{
    if let Some(value) = following(args, i) {
        lemma_dropped_elements(v.flags.extension_minus, value);
    }
}

proof fn lemma_parse_is_sound(v: ArgsView, args: Seq<Seq<char>>, i: int)
    requires
        sound(v),
    ensures
        sound(parse_from(v, args, i).0),
    decreases args.len() - i,
{
    if i < args.len() {
        lemma_step_is_sound(v, args, i);
        if let ParseStep::Next(next, j) = parse_step(v, args, i) {
            if j > i {
                lemma_parse_is_sound(next, args, j);
            }
        }
    }
}

/// Whatever the arguments, the X server is never told to do without an extension that the bridge
/// needs.
pub proof fn law_essential_extensions_stay(args: Seq<Seq<char>>, k: int)
    requires
        0 <= k < parsed(args).0.flags.extension_minus.len(),
    ensures
        !is_essential(parsed(args).0.flags.extension_minus[k]),
{
    lemma_parse_is_sound(
        ArgsView { flags: default_flags(), listenfds: Seq::empty() },
        args,
        if names_display(args) {
            1
        } else {
            0
        },
    );
}

/// No descriptor is ever taken twice.
pub proof fn law_descriptors_are_distinct(args: Seq<Seq<char>>)
    ensures
        parsed(args).0.listenfds.no_duplicates(),
{
    lemma_parse_is_sound(
        ArgsView { flags: default_flags(), listenfds: Seq::empty() },
        args,
        if names_display(args) {
            1
        } else {
            0
        },
    );
}

/// The option words, told apart by their lengths and letters.
proof fn lemma_options_differ()
    ensures
        "-audit"@ != "-auth"@ && "-audit"@ != "+extension"@ && "-audit"@ != "-extension"@,
        "-audit"@ != "-glamor"@ && "-audit"@ != "-listen"@ && "-audit"@ != "-nolisten"@,
        "-audit"@ != "-listenfd"@ && "-audit"@ != "-verbose"@ && "-audit"@ != "-ac"@,
        "-auth"@ != "+extension"@ && "-auth"@ != "-extension"@ && "-auth"@ != "-glamor"@,
        "-auth"@ != "-listen"@ && "-auth"@ != "-nolisten"@ && "-auth"@ != "-listenfd"@,
        "-auth"@ != "-verbose"@ && "-auth"@ != "-core"@ && "-auth"@ != "-help"@,
        "+extension"@ != "-extension"@ && "+extension"@ != "-glamor"@ && "+extension"@
            != "-listen"@,
        "+extension"@ != "-nolisten"@ && "+extension"@ != "-listenfd"@ && "+extension"@
            != "-verbose"@,
        "-extension"@ != "-glamor"@ && "-extension"@ != "-listen"@ && "-extension"@
            != "-nolisten"@,
        "-extension"@ != "-listenfd"@ && "-extension"@ != "-verbose"@,
        "-glamor"@ != "-listen"@ && "-glamor"@ != "-nolisten"@ && "-glamor"@ != "-listenfd"@,
        "-glamor"@ != "-verbose"@ && "-listen"@ != "-nolisten"@ && "-listen"@ != "-listenfd"@,
        "-listen"@ != "-verbose"@ && "-nolisten"@ != "-listenfd"@ && "-nolisten"@ != "-verbose"@,
        "-listenfd"@ != "-verbose"@,
        forall|word: Seq<char>| #[trigger]
            is_plain_option(word) ==> word != "-audit"@ && word != "-auth"@ && word != "+extension"@
                && word != "-extension"@ && word != "-glamor"@ && word != "-listen"@ && word
                != "-nolisten"@ && word != "-listenfd"@ && word != "-verbose"@,
        "-ac"@ != "-core"@ && "-core"@ != "-help"@ && "-ac"@ != "-help"@,
        "-ac"@ != "-version"@ && "-core"@ != "-version"@ && "-help"@ != "-version"@,
        "--test-listenfd-support"@ != "-ac"@ && "--test-listenfd-support"@ != "-core"@
            && "--test-listenfd-support"@ != "-help"@ && "--test-listenfd-support"@
            != "-version"@,
{
    reveal_strlit("-audit");
    reveal_strlit("-auth");
    reveal_strlit("+extension");
    reveal_strlit("-extension");
    reveal_strlit("-glamor");
    reveal_strlit("-listen");
    reveal_strlit("-nolisten");
    reveal_strlit("-listenfd");
    reveal_strlit("-verbose");
    reveal_strlit("-ac");
    reveal_strlit("-core");
    reveal_strlit("-help");
    reveal_strlit("-version");
    reveal_strlit("--test-listenfd-support");
    assert("-audit"@.len() == 6);
    assert("-auth"@.len() == 5);
    assert("+extension"@.len() == 10);
    assert("-extension"@.len() == 10);
    assert("-glamor"@.len() == 7);
    assert("-listen"@.len() == 7);
    assert("-nolisten"@.len() == 9);
    assert("-listenfd"@.len() == 9);
    assert("-verbose"@.len() == 8);
    assert("-ac"@.len() == 3);
    assert("-core"@.len() == 5);
    assert("-help"@.len() == 5);
    assert("-version"@.len() == 8);
    assert("--test-listenfd-support"@.len() == 23);
    assert("+extension"@[0] != "-extension"@[0]);
    assert("-glamor"@[1] != "-listen"@[1]);
    assert("-nolisten"@[1] != "-listenfd"@[1]);
    assert("-verbose"@[4] != "-version"@[4]);
    assert("-auth"@[1] != "-core"@[1]);
    assert("-auth"@[1] != "-help"@[1]);
    assert("-core"@[1] != "-help"@[1]);
}

/// Whether a word is an option that takes no value.
pub open spec fn is_plain_option(word: Seq<char>) -> bool {
    word == "-ac"@ || word == "-core"@ || word == "-help"@ || word == "-version"@ || word
        == "--test-listenfd-support"@
}

/// Each option that takes a value sets what it is for to its value, and nothing else, and both words
/// are used up.
pub proof fn law_options_set_what_they_are_for(v: ArgsView, args: Seq<Seq<char>>, i: int)
    requires
        0 <= i,
        i + 1 < args.len(),
    ensures
        ({
            let step = parse_step(v, args, i);
            let value = args[i + 1];
            &&& args[i] == "-audit"@ && text::text_as_u32(value) is Some ==> step
                == ParseStep::Next(
                ArgsView {
                    flags: FlagsView { audit_level: text::text_as_u32(value)->0, ..v.flags },
                    ..v
                },
                i + 2,
            )
            &&& args[i] == "-auth"@ && v.flags.auth_file is None ==> step == ParseStep::Next(
                ArgsView { flags: FlagsView { auth_file: Some(value), ..v.flags }, ..v },
                i + 2,
            )
            &&& args[i] == "-verbose"@ && text::text_as_u32(value) is Some ==> step
                == ParseStep::Next(
                ArgsView {
                    flags: FlagsView { verbosity: text::text_as_u32(value)->0, ..v.flags },
                    ..v
                },
                i + 2,
            )
            &&& args[i] == "-glamor"@ && value == "gl"@ ==> step == ParseStep::Next(
                ArgsView { flags: FlagsView { glamor: Some(Glamor::Gl), ..v.flags }, ..v },
                i + 2,
            )
            &&& args[i] == "-glamor"@ && value == "es"@ ==> step == ParseStep::Next(
                ArgsView { flags: FlagsView { glamor: Some(Glamor::Es), ..v.flags }, ..v },
                i + 2,
            )
            &&& args[i] == "-glamor"@ && value == "none"@ ==> step == ParseStep::Next(
                ArgsView { flags: FlagsView { glamor: Some(Glamor::Off), ..v.flags }, ..v },
                i + 2,
            )
            &&& args[i] == "-listenfd"@ && text::text_as_i32(value) is Some
                && !v.listenfds.contains(text::text_as_i32(value)->0) ==> step == ParseStep::Next(
                ArgsView { listenfds: v.listenfds.push(text::text_as_i32(value)->0), ..v },
                i + 2,
            )
            &&& args[i] == "-listenfd"@ && text::text_as_i32(value) is Some && v.listenfds.contains(
                text::text_as_i32(value)->0,
            ) ==> step is Stop
            &&& args[i] == "-audit"@ && text::text_as_u32(value) is None ==> step is Stop
            &&& args[i] == "-auth"@ && v.flags.auth_file is Some ==> step is Stop
        }),
{
    lemma_options_differ();
    reveal_strlit("gl");
    reveal_strlit("es");
    reveal_strlit("none");
    assert("gl"@[0] != "es"@[0]);
    assert("gl"@.len() != "none"@.len());
}

/// An extension or a protocol that is switched on is on the list of those that are, and one that is
/// switched off on the other, each at the end. Essential extensions cannot be switched off.
pub proof fn law_switches_go_on_their_list(v: ArgsView, args: Seq<Seq<char>>, i: int)
    requires
        0 <= i,
        i + 1 < args.len(),
    ensures
        ({
            let value = args[i + 1];
            let essential = value == "COMPOSITE"@ || value == "RANDR"@ || value == "XFIXES"@
                || value == "X-Resource"@;
            &&& args[i] == "+extension"@ || args[i] == "-extension"@ || args[i] == "-listen"@
                || args[i] == "-nolisten"@ ==> (parse_step(v, args, i) matches ParseStep::Next(
                after,
                next,
            ) && next == i + 2 && after.listenfds == v.listenfds && after.flags.audit_level
                == v.flags.audit_level && after.flags.glamor == v.flags.glamor)
            &&& args[i] == "+extension"@ ==> (parse_step(v, args, i) matches ParseStep::Next(
                after,
                _,
            ) && after.flags.extension_plus == v.flags.extension_plus.push(value)
                && after.flags.listen_plus == v.flags.listen_plus && after.flags.listen_minus
                == v.flags.listen_minus)
            &&& args[i] == "-extension"@ && !essential ==> (parse_step(
                v,
                args,
                i,
            ) matches ParseStep::Next(after, _) && after.flags.extension_minus
                == v.flags.extension_minus.push(value) && after.flags.listen_plus
                == v.flags.listen_plus && after.flags.listen_minus == v.flags.listen_minus)
            &&& args[i] == "-extension"@ && essential ==> (parse_step(
                v,
                args,
                i,
            ) matches ParseStep::Next(after, _) && after == v)
            &&& args[i] == "-listen"@ ==> (parse_step(v, args, i) matches ParseStep::Next(after, _)
                && after.flags.listen_plus == v.flags.listen_plus.push(value)
                && after.flags.extension_plus == v.flags.extension_plus
                && after.flags.extension_minus == v.flags.extension_minus)
            &&& args[i] == "-nolisten"@ ==> (parse_step(v, args, i) matches ParseStep::Next(
                after,
                _,
            ) && after.flags.listen_minus == v.flags.listen_minus.push(value)
                && after.flags.extension_plus == v.flags.extension_plus
                && after.flags.extension_minus == v.flags.extension_minus)
        }),
{
    lemma_options_differ();
}

/// Options without a value do what they are for with one word; a word that is no option is refused
/// by its place.
pub proof fn law_plain_options(v: ArgsView, args: Seq<Seq<char>>, i: int)
    requires
        0 <= i < args.len() <= usize::MAX,
        is_plain_option(args[i]),
    ensures
        args[i] == "-ac"@ ==> parse_step(v, args, i) == ParseStep::Next(
            ArgsView { flags: FlagsView { disable_ac: true, ..v.flags }, ..v },
            i + 1,
        ),
        args[i] == "-core"@ ==> parse_step(v, args, i) == ParseStep::Next(
            ArgsView { flags: FlagsView { coredump: true, ..v.flags }, ..v },
            i + 1,
        ),
        args[i] == "-help"@ ==> parse_step(v, args, i) == ParseStep::Stop(End::Help),
        args[i] == "-version"@ ==> parse_step(v, args, i) == ParseStep::Stop(End::Version),
        args[i] == "--test-listenfd-support"@ ==> parse_step(v, args, i) == ParseStep::Stop(
            End::TestListenfdSupport,
        ),
{
    lemma_options_differ();
}

/// Switching one thing on takes back that it was switched off, and leaves all others as they were.
pub proof fn law_what_is_taken_back(list: Seq<Seq<char>>, word: Seq<char>)
    ensures
        !list.contains(word) ==> dropped(list, word) == list,
        list.contains(word) ==> dropped(list, word).len() == list.len() - 1,
        forall|other: Seq<char>| other != word && #[trigger] list.contains(other) ==> dropped(
            list,
            word,
        ).contains(other),
        list.no_duplicates() ==> !dropped(list, word).contains(word),
{
    if list.contains(word) {
        let at = list.index_of_first(word);
        list.index_of_first_ensures(word);
        let k = at->0;
        assert(first_at(list, word, k)) by {
            assert forall|j: int| 0 <= j < k implies #[trigger] list[j] != word by {
            }
        }
        lemma_first_is_unique(list, word, k);
        let left = dropped(list, word);
        assert forall|other: Seq<char>| other != word && #[trigger] list.contains(
            other,
        ) implies left.contains(other) by {
            let j = choose|j: int| 0 <= j < list.len() && list[j] == other;
            if j == list.len() - 1 {
                assert(left[k] == other);
            } else {
                assert(left[j] == other);
            }
        }
        if list.no_duplicates() {
            assert forall|j: int| 0 <= j < left.len() implies left[j] != word by {
                if j == k {
                    assert(left[j] == list[list.len() - 1]);
                } else {
                    assert(left[j] == list[j]);
                }
            }
        }
    } else {
        assert forall|k: int| !first_at(list, word, k) by {
            if first_at(list, word, k) {
                assert(list.contains(list[k]));
            }
        }
    }
}

/// Each value of a list is written out behind its option, in order.
pub proof fn law_values_are_written_behind_their_option(
    option: Seq<char>,
    values: Seq<Seq<char>>,
    k: int,
)
    requires
        0 <= k < values.len(),
    ensures
        each_with(option, values).len() == 2 * values.len(),
        each_with(option, values)[2 * k] == option,
        each_with(option, values)[2 * k + 1] == values[k],
    decreases values.len(),
{
    let earlier = values.drop_last();
    if earlier.len() > 0 {
        law_values_are_written_behind_their_option(
            option,
            earlier,
            if k < earlier.len() {
                k
            } else {
                0
            },
        );
    } else {
        assert(each_with(option, earlier).len() == 0);
    }
}

/// The X server is told the audit level, the authority file and the verbosity that were asked for,
/// and to switch off access control or keep core dumps exactly if that was asked for.
pub proof fn law_flags_are_written_out(flags: FlagsView)
    ensures
        ({
            let all = flag_words(flags);
            let k = if flags.disable_ac { 1int } else { 0 };
            let auth = if flags.auth_file is Some { 2int } else { 0 };
            &&& all.len() >= k + 4 + auth
            &&& flags.disable_ac ==> all[0] == "-ac"@
            &&& all[k] == "-audit"@
            &&& all[k + 1] == text::decimal_text(flags.audit_level as int)
            &&& flags.auth_file matches Some(file) ==> all[k + 2] == "-auth"@ && all[k + 3] == file
            &&& flags.coredump ==> all[k + 2 + auth] == "-core"@
            &&& all[all.len() - 2] == "-verbose"@
            &&& all[all.len() - 1] == text::decimal_text(flags.verbosity as int)
        }),
        flags.glamor is None ==> glamor_words(flags.glamor).len() == 0,
        flags.glamor == Some(Glamor::Gl) ==> glamor_words(flags.glamor) =~= seq!["-glamor"@, "gl"@],
        flags.glamor == Some(Glamor::Es) ==> glamor_words(flags.glamor) =~= seq!["-glamor"@, "es"@],
        flags.glamor == Some(Glamor::Off) ==> glamor_words(flags.glamor) =~= seq!["-shm"@],
{
}

/// What was not asked for is left as the X server has it.
pub proof fn law_nothing_is_asked_for_at_first()
    ensures
        !default_flags().disable_ac && !default_flags().coredump,
        default_flags().audit_level == 1,
        default_flags().verbosity == 0,
        default_flags().auth_file is None && default_flags().glamor is None,
        default_flags().extension_plus.len() == 0 && default_flags().extension_minus.len() == 0,
        default_flags().listen_plus.len() == 0 && default_flags().listen_minus.len() == 0,
        parsed(Seq::empty()) == (
            ArgsView { flags: default_flags(), listenfds: Seq::empty() },
            End::Run,
        ),
{
}

} // verus!
