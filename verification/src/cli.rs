//! The command-line grammar.
//!
//! ```text
//! SpeedTest [-u|--url <URL>] [-c|--concurrency <N>] [--ua <UA>]
//!           [--mainland] [--overseas] [--cli | --tui] [-h|--help] [-V|--version]
//! ```
//!
//! A value is given in the next argument (`--url x`, `-u x`) or attached
//! (`--url=x`, `-ux`, `-u=x`). `--` ends the options; no positional
//! argument is accepted. Each option may be given once, and `--cli` and
//! `--tui` exclude each other. Arguments are read left to right and a value
//! that an option waits for is settled when the next option comes or the
//! line ends, so the first problem met is the one reported. What is shown
//! for a refused line, for help and for the version is not written here.
use vstd::prelude::*;

use crate::chars::{chars_of, read_usize, same_chars, spec_read_usize, string_of, sub_chars};

pub use crate::chars::NumberError;

verus! {

/// The number of download workers when `--concurrency` is not given.
pub const DEFAULT_CONCURRENCY: usize = 16;

/// The `User-Agent` header when `--ua` is not given.
pub const DEFAULT_USER_AGENT: &'static str = "Mozilla/5.0 (X11; Linux x86_64) AppleWebKit/537.36 (KHTML, like Gecko) Chrome/130.0.0.0 Safari/537.36 Edg/130.0.0.0";

/// Why a command line did not yield [`Args`].
#[derive(Debug, Clone, PartialEq, Eq)]
pub enum ArgsError {
    /// `-h` or `--help` was given.
    DisplayHelp,
    /// `-V` or `--version` was given.
    DisplayVersion,
    /// An argument that names no option, or stands where none is expected:
    /// `--name` for an unknown long option, `-c` for an unknown short one,
    /// and the whole argument otherwise.
    UnknownArgument(String),
    /// This option was left without a value.
    MissingValue(ValueArg),
    /// This value of `--concurrency` is not a `usize`, for this reason.
    InvalidNumber(String, NumberError),
    /// This value was attached to this option, which takes none (`--cli=yes`).
    UnexpectedValue(Key, String),
    /// This option was given twice.
    Repeated(Key),
    /// The first option given cannot be used with the second (`--cli` and `--tui`).
    Conflict(FlagArg, FlagArg),
}

/// [`ArgsError`] with its strings taken as character sequences.
pub enum ArgsErrorModel {
    DisplayHelp,
    DisplayVersion,
    UnknownArgument(Seq<char>),
    MissingValue(ValueArg),
    InvalidNumber(Seq<char>, NumberError),
    UnexpectedValue(Key, Seq<char>),
    Repeated(Key),
    Conflict(FlagArg, FlagArg),
}

impl View for ArgsError {
    type V = ArgsErrorModel;

    open spec fn view(&self) -> ArgsErrorModel {
        match self {
            ArgsError::DisplayHelp => ArgsErrorModel::DisplayHelp,
            ArgsError::DisplayVersion => ArgsErrorModel::DisplayVersion,
            ArgsError::UnknownArgument(t) => ArgsErrorModel::UnknownArgument(t@),
            ArgsError::MissingValue(a) => ArgsErrorModel::MissingValue(*a),
            ArgsError::InvalidNumber(v, r) => ArgsErrorModel::InvalidNumber(v@, *r),
            ArgsError::UnexpectedValue(k, v) => ArgsErrorModel::UnexpectedValue(*k, v@),
            ArgsError::Repeated(k) => ArgsErrorModel::Repeated(*k),
            ArgsError::Conflict(a, b) => ArgsErrorModel::Conflict(*a, *b),
        }
    }
}

/// The options that take a value.
#[derive(Debug, Clone, Copy, PartialEq, Eq, Structural)]
pub enum ValueArg {
    Url,
    Concurrency,
    UserAgent,
}

/// The options that take no value.
#[derive(Debug, Clone, Copy, PartialEq, Eq, Structural)]
pub enum FlagArg {
    Mainland,
    Overseas,
    Cli,
    Tui,
}

/// What an option name stands for.
#[derive(Debug, Clone, Copy, PartialEq, Eq, Structural)]
pub enum Key {
    Value(ValueArg),
    Flag(FlagArg),
    Help,
    Version,
}

/// The settings of one run.
pub struct Args {
    /// A download address of the user's own; empty when none was given.
    pub url: String,
    /// How many downloads run at once.
    pub concurrency: usize,
    /// The `User-Agent` header of every request.
    pub ua: String,
    /// Use the mainland server group.
    pub mainland: bool,
    /// Use the overseas server group.
    pub overseas: bool,
    /// Plain text output, one line per sample.
    pub cli: bool,
    /// The full-screen dashboard, even where it was not chosen by itself.
    pub tui: bool,
}

/// [`Args`] with its strings taken as character sequences.
pub struct ArgsModel {
    pub url: Seq<char>,
    pub concurrency: usize,
    pub ua: Seq<char>,
    pub mainland: bool,
    pub overseas: bool,
    pub cli: bool,
    pub tui: bool,
}

impl View for Args {
    type V = ArgsModel;

    open spec fn view(&self) -> ArgsModel {
        ArgsModel {
            url: self.url@,
            concurrency: self.concurrency,
            ua: self.ua@,
            mainland: self.mainland,
            overseas: self.overseas,
            cli: self.cli,
            tui: self.tui,
        }
    }
}

// ----- the grammar, stated over character sequences -----

/// How one argument reads.
pub enum Token {
    /// `--`
    Escape,
    /// `--name` or `--name=value`
    Long(Seq<char>, Option<Seq<char>>),
    /// `-c…`: the first character after the dash and the rest
    Short(char, Seq<char>),
    /// anything else, `-` among them
    Plain,
}

/// The first index at or after `i` that holds `=`, or the length.
pub open spec fn first_eq_from(t: Seq<char>, i: int) -> int
    decreases t.len() - i,
{
    if i >= t.len() {
        t.len() as int
    } else if t[i] == '=' {
        i
    } else {
        first_eq_from(t, i + 1)
    }
}

pub open spec fn classify(t: Seq<char>) -> Token {
    if t == seq!['-', '-'] {
        Token::Escape
    } else if t.len() >= 2 && t[0] == '-' && t[1] == '-' {
        let k = first_eq_from(t, 2);
        Token::Long(
            t.subrange(2, k),
            if k < t.len() {
                Some(t.subrange(k + 1, t.len() as int))
            } else {
                None
            },
        )
    } else if t.len() >= 2 && t[0] == '-' {
        Token::Short(t[1], t.subrange(2, t.len() as int))
    } else {
        Token::Plain
    }
}

pub open spec fn lookup_long(name: Seq<char>) -> Option<Key> {
    if name == seq!['u', 'r', 'l'] {
        Some(Key::Value(ValueArg::Url))
    } else if name == seq!['c', 'o', 'n', 'c', 'u', 'r', 'r', 'e', 'n', 'c', 'y'] {
        Some(Key::Value(ValueArg::Concurrency))
    } else if name == seq!['u', 'a'] {
        Some(Key::Value(ValueArg::UserAgent))
    } else if name == seq!['m', 'a', 'i', 'n', 'l', 'a', 'n', 'd'] {
        Some(Key::Flag(FlagArg::Mainland))
    } else if name == seq!['o', 'v', 'e', 'r', 's', 'e', 'a', 's'] {
        Some(Key::Flag(FlagArg::Overseas))
    } else if name == seq!['c', 'l', 'i'] {
        Some(Key::Flag(FlagArg::Cli))
    } else if name == seq!['t', 'u', 'i'] {
        Some(Key::Flag(FlagArg::Tui))
    } else if name == seq!['h', 'e', 'l', 'p'] {
        Some(Key::Help)
    } else if name == seq!['v', 'e', 'r', 's', 'i', 'o', 'n'] {
        Some(Key::Version)
    } else {
        None
    }
}

pub open spec fn lookup_short(c: char) -> Option<Key> {
    if c == 'u' {
        Some(Key::Value(ValueArg::Url))
    } else if c == 'c' {
        Some(Key::Value(ValueArg::Concurrency))
    } else if c == 'h' {
        Some(Key::Help)
    } else if c == 'V' {
        Some(Key::Version)
    } else {
        None
    }
}

/// The value attached to a short option: what follows its letter, without
/// one leading `=`; none when nothing follows.
pub open spec fn short_attached(rest: Seq<char>) -> Option<Seq<char>> {
    if rest.len() == 0 {
        None
    } else if rest[0] == '=' {
        Some(rest.drop_first())
    } else {
        Some(rest)
    }
}

/// The value an option still waits for.
pub enum Pending {
    Nothing,
    /// the option was read and its value has not come yet
    Awaiting(ValueArg),
    /// the value came in the next argument and is not settled yet
    Filled(ValueArg, Seq<char>),
}

/// What has been read of a command line so far.
pub struct ParseModel {
    pub url: Option<Seq<char>>,
    pub concurrency: Option<usize>,
    pub ua: Option<Seq<char>>,
    pub mainland: bool,
    pub overseas: bool,
    pub cli: bool,
    pub tui: bool,
    /// `--cli` came after `--tui`
    pub cli_after_tui: bool,
    pub pending: Pending,
    /// `--` has been read
    pub trailing: bool,
}

pub open spec fn initial_model() -> ParseModel {
    ParseModel {
        url: None,
        concurrency: None,
        ua: None,
        mainland: false,
        overseas: false,
        cli: false,
        tui: false,
        cli_after_tui: false,
        pending: Pending::Nothing,
        trailing: false,
    }
}

pub open spec fn value_is_set(p: ParseModel, a: ValueArg) -> bool {
    match a {
        ValueArg::Url => p.url is Some,
        ValueArg::Concurrency => p.concurrency is Some,
        ValueArg::UserAgent => p.ua is Some,
    }
}

pub open spec fn flag_is_set(p: ParseModel, f: FlagArg) -> bool {
    match f {
        FlagArg::Mainland => p.mainland,
        FlagArg::Overseas => p.overseas,
        FlagArg::Cli => p.cli,
        FlagArg::Tui => p.tui,
    }
}

pub open spec fn set_flag(p: ParseModel, f: FlagArg) -> ParseModel {
    match f {
        FlagArg::Mainland => ParseModel { mainland: true, ..p },
        FlagArg::Overseas => ParseModel { overseas: true, ..p },
        FlagArg::Cli => ParseModel { cli: true, cli_after_tui: p.tui, ..p },
        FlagArg::Tui => ParseModel { tui: true, ..p },
    }
}

/// Records the value of `a`: a second value is refused, and the
/// concurrency must read as a `usize`.
pub open spec fn assign_value(p: ParseModel, a: ValueArg, v: Seq<char>) -> Result<ParseModel, ArgsErrorModel> {
    if value_is_set(p, a) {
        Err(ArgsErrorModel::Repeated(Key::Value(a)))
    } else {
        match a {
            ValueArg::Url => Ok(ParseModel { url: Some(v), ..p }),
            ValueArg::Concurrency => match spec_read_usize(v) {
                Ok(n) => Ok(ParseModel { concurrency: Some(n), ..p }),
                Err(r) => Err(ArgsErrorModel::InvalidNumber(v, r)),
            },
            ValueArg::UserAgent => Ok(ParseModel { ua: Some(v), ..p }),
        }
    }
}

/// Settles the value an option waits for.
pub open spec fn resolve(p: ParseModel) -> Result<ParseModel, ArgsErrorModel> {
    match p.pending {
        Pending::Nothing => Ok(p),
        Pending::Awaiting(a) => Err(ArgsErrorModel::MissingValue(a)),
        Pending::Filled(a, v) => assign_value(ParseModel { pending: Pending::Nothing, ..p }, a, v),
    }
}

/// An option, with the value attached to it if any.
pub open spec fn apply_key(p: ParseModel, key: Key, value: Option<Seq<char>>) -> Result<ParseModel, ArgsErrorModel> {
    match key {
        Key::Value(a) => match resolve(p) {
            Err(e) => Err(e),
            Ok(q) => match value {
                Some(v) => assign_value(q, a, v),
                None => Ok(ParseModel { pending: Pending::Awaiting(a), ..q }),
            },
        },
        _ => match value {
            Some(v) => Err(ArgsErrorModel::UnexpectedValue(key, v)),
            None => match resolve(p) {
                Err(e) => Err(e),
                Ok(q) => match key {
                    Key::Flag(f) => if flag_is_set(q, f) {
                        Err(ArgsErrorModel::Repeated(key))
                    } else {
                        Ok(set_flag(q, f))
                    },
                    Key::Help => Err(ArgsErrorModel::DisplayHelp),
                    _ => Err(ArgsErrorModel::DisplayVersion),
                },
            },
        },
    }
}

/// Reads one argument.
pub open spec fn step(p: ParseModel, t: Seq<char>) -> Result<ParseModel, ArgsErrorModel> {
    if p.trailing {
        Err(ArgsErrorModel::UnknownArgument(t))
    } else {
        match classify(t) {
            Token::Escape => Ok(ParseModel { trailing: true, ..p }),
            Token::Long(name, value) => match lookup_long(name) {
                Some(k) => apply_key(p, k, value),
                None => Err(ArgsErrorModel::UnknownArgument(seq!['-', '-'] + name)),
            },
            Token::Short(c, rest) => match lookup_short(c) {
                Some(Key::Value(a)) => apply_key(p, Key::Value(a), short_attached(rest)),
                Some(k) => apply_key(p, k, None),
                None => Err(ArgsErrorModel::UnknownArgument(seq!['-', c])),
            },
            Token::Plain => match p.pending {
                Pending::Awaiting(a) => Ok(ParseModel { pending: Pending::Filled(a, t), ..p }),
                _ => Err(ArgsErrorModel::UnknownArgument(t)),
            },
        }
    }
}

/// Reads the arguments left to right, stopping at the first problem.
pub open spec fn run(p: ParseModel, toks: Seq<Seq<char>>) -> Result<ParseModel, ArgsErrorModel>
    decreases toks.len(),
{
    if toks.len() == 0 {
        Ok(p)
    } else {
        match step(p, toks[0]) {
            Err(e) => Err(e),
            Ok(q) => run(q, toks.drop_first()),
        }
    }
}

/// The end of the line: the last value is settled, `--cli` and `--tui`
/// exclude each other (the one given first is named first), and what was
/// not given takes its default.
pub open spec fn finish(p: ParseModel) -> Result<ArgsModel, ArgsErrorModel> {
    match resolve(p) {
        Err(e) => Err(e),
        Ok(q) => if q.cli && q.tui {
            if q.cli_after_tui {
                Err(ArgsErrorModel::Conflict(FlagArg::Tui, FlagArg::Cli))
            } else {
                Err(ArgsErrorModel::Conflict(FlagArg::Cli, FlagArg::Tui))
            }
        } else {
            Ok(
                ArgsModel {
                    url: match q.url {
                        Some(u) => u,
                        None => Seq::empty(),
                    },
                    concurrency: match q.concurrency {
                        Some(n) => n,
                        None => DEFAULT_CONCURRENCY,
                    },
                    ua: match q.ua {
                        Some(u) => u,
                        None => DEFAULT_USER_AGENT@,
                    },
                    mainland: q.mainland,
                    overseas: q.overseas,
                    cli: q.cli,
                    tui: q.tui,
                },
            )
        },
    }
}

/// The meaning of a whole command line; its first element names the
/// program and is not read.
pub open spec fn spec_parse(argv: Seq<Seq<char>>) -> Result<ArgsModel, ArgsErrorModel> {
    if argv.len() == 0 {
        finish(initial_model())
    } else {
        match run(initial_model(), argv.drop_first()) {
            Err(e) => Err(e),
            Ok(p) => finish(p),
        }
    }
}

pub open spec fn args_result_view(r: Result<Args, ArgsError>) -> Result<ArgsModel, ArgsErrorModel> {
    match r {
        Ok(a) => Ok(a@),
        Err(e) => Err(e@),
    }
}

// ----- the reader -----

enum PendingValue {
    Nothing,
    Awaiting(ValueArg),
    Filled(ValueArg, Vec<char>),
}

struct ParseState {
    url: Option<String>,
    concurrency: Option<usize>,
    ua: Option<String>,
    mainland: bool,
    overseas: bool,
    cli: bool,
    tui: bool,
    cli_after_tui: bool,
    pending: PendingValue,
    trailing: bool,
}

spec fn opt_string_view(s: Option<String>) -> Option<Seq<char>> {
    match s {
        Some(x) => Some(x@),
        None => None,
    }
}

impl ParseState {
    spec fn model(&self) -> ParseModel {
        ParseModel {
            url: opt_string_view(self.url),
            concurrency: self.concurrency,
            ua: opt_string_view(self.ua),
            mainland: self.mainland,
            overseas: self.overseas,
            cli: self.cli,
            tui: self.tui,
            cli_after_tui: self.cli_after_tui,
            pending: match self.pending {
                PendingValue::Nothing => Pending::Nothing,
                PendingValue::Awaiting(a) => Pending::Awaiting(a),
                PendingValue::Filled(a, v) => Pending::Filled(a, v@),
            },
            trailing: self.trailing,
        }
    }
}

spec fn state_result_model(r: Result<ParseState, ArgsError>) -> Result<ParseModel, ArgsErrorModel> {
    match r {
        Ok(s) => Ok(s.model()),
        Err(e) => Err(e@),
    }
}

fn all_chars(v: &Vec<char>) -> (s: String)
    ensures
        s@ == v@,
{
    let s = string_of(v, 0, v.len());
    assert(v@.subrange(0, v@.len() as int) =~= v@);
    s
}

fn exec_assign(st: ParseState, a: ValueArg, v: Vec<char>) -> (r: Result<ParseState, ArgsError>)
    ensures
        state_result_model(r) == assign_value(st.model(), a, v@),
{
    match a {
        ValueArg::Url => {
            if st.url.is_some() {
                return Err(ArgsError::Repeated(Key::Value(a)));
            }
            Ok(ParseState { url: Some(all_chars(&v)), ..st })
        },
        ValueArg::Concurrency => {
            if st.concurrency.is_some() {
                return Err(ArgsError::Repeated(Key::Value(a)));
            }
            assert(v@.subrange(0, v@.len() as int) =~= v@);
            match read_usize(&v, 0, v.len()) {
                Ok(n) => Ok(ParseState { concurrency: Some(n), ..st }),
                Err(r) => Err(ArgsError::InvalidNumber(all_chars(&v), r)),
            }
        },
        ValueArg::UserAgent => {
            if st.ua.is_some() {
                return Err(ArgsError::Repeated(Key::Value(a)));
            }
            Ok(ParseState { ua: Some(all_chars(&v)), ..st })
        },
    }
}

fn exec_resolve(st: ParseState) -> (r: Result<ParseState, ArgsError>)
    ensures
        state_result_model(r) == resolve(st.model()),
{
    match st.pending {
        PendingValue::Nothing => Ok(st),
        PendingValue::Awaiting(a) => Err(ArgsError::MissingValue(a)),
        PendingValue::Filled(a, v) => {
            let rest = ParseState { pending: PendingValue::Nothing, ..st };
            exec_assign(rest, a, v)
        },
    }
}

fn exec_apply_key(st: ParseState, key: Key, value: Option<Vec<char>>) -> (r: Result<ParseState, ArgsError>)
    ensures
        state_result_model(r) == apply_key(
            st.model(),
            key,
            match value {
                Some(v) => Some(v@),
                None => None,
            },
        ),
{
    match key {
        Key::Value(a) => {
            let q = exec_resolve(st)?;
            match value {
                Some(v) => exec_assign(q, a, v),
                None => Ok(ParseState { pending: PendingValue::Awaiting(a), ..q }),
            }
        },
        _ => {
            if let Some(v) = value {
                return Err(ArgsError::UnexpectedValue(key, all_chars(&v)));
            }
            let q = exec_resolve(st)?;
            match key {
                Key::Flag(f) => match f {
                    FlagArg::Mainland => if q.mainland {
                        Err(ArgsError::Repeated(key))
                    } else {
                        Ok(ParseState { mainland: true, ..q })
                    },
                    FlagArg::Overseas => if q.overseas {
                        Err(ArgsError::Repeated(key))
                    } else {
                        Ok(ParseState { overseas: true, ..q })
                    },
                    FlagArg::Cli => if q.cli {
                        Err(ArgsError::Repeated(key))
                    } else {
                        let after = q.tui;
                        Ok(ParseState { cli: true, cli_after_tui: after, ..q })
                    },
                    FlagArg::Tui => if q.tui {
                        Err(ArgsError::Repeated(key))
                    } else {
                        Ok(ParseState { tui: true, ..q })
                    },
                },
                Key::Help => Err(ArgsError::DisplayHelp),
                _ => Err(ArgsError::DisplayVersion),
            }
        },
    }
}

fn exec_lookup_long(v: &Vec<char>, lo: usize, hi: usize) -> (k: Option<Key>)
    requires
        lo <= hi <= v@.len(),
    ensures
        k == lookup_long(v@.subrange(lo as int, hi as int)),
{
    if same_chars(v, lo, hi, &vec!['u', 'r', 'l']) {
        Some(Key::Value(ValueArg::Url))
    } else if same_chars(v, lo, hi, &vec!['c', 'o', 'n', 'c', 'u', 'r', 'r', 'e', 'n', 'c', 'y']) {
        Some(Key::Value(ValueArg::Concurrency))
    } else if same_chars(v, lo, hi, &vec!['u', 'a']) {
        Some(Key::Value(ValueArg::UserAgent))
    } else if same_chars(v, lo, hi, &vec!['m', 'a', 'i', 'n', 'l', 'a', 'n', 'd']) {
        Some(Key::Flag(FlagArg::Mainland))
    } else if same_chars(v, lo, hi, &vec!['o', 'v', 'e', 'r', 's', 'e', 'a', 's']) {
        Some(Key::Flag(FlagArg::Overseas))
    } else if same_chars(v, lo, hi, &vec!['c', 'l', 'i']) {
        Some(Key::Flag(FlagArg::Cli))
    } else if same_chars(v, lo, hi, &vec!['t', 'u', 'i']) {
        Some(Key::Flag(FlagArg::Tui))
    } else if same_chars(v, lo, hi, &vec!['h', 'e', 'l', 'p']) {
        Some(Key::Help)
    } else if same_chars(v, lo, hi, &vec!['v', 'e', 'r', 's', 'i', 'o', 'n']) {
        Some(Key::Version)
    } else {
        None
    }
}

fn exec_lookup_short(c: char) -> (k: Option<Key>)
    ensures
        k == lookup_short(c),
{
    if c == 'u' {
        Some(Key::Value(ValueArg::Url))
    } else if c == 'c' {
        Some(Key::Value(ValueArg::Concurrency))
    } else if c == 'h' {
        Some(Key::Help)
    } else if c == 'V' {
        Some(Key::Version)
    } else {
        None
    }
}

/// The index of the first `=` at or after `from`, or the length.
fn find_eq(v: &Vec<char>, from: usize) -> (k: usize)
    requires
        from <= v@.len(),
    ensures
        k as int == first_eq_from(v@, from as int),
        from <= k <= v@.len(),
{
    let mut i = from;
    while i < v.len()
        invariant
            from <= i <= v@.len(),
            first_eq_from(v@, from as int) == first_eq_from(v@, i as int),
        decreases v@.len() - i,
    {
        if v[i] == '=' {
            return i;
        }
        i += 1;
    }
    i
}

fn exec_step(st: ParseState, tok: &String) -> (r: Result<ParseState, ArgsError>)
    ensures
        state_result_model(r) == step(st.model(), tok@),
{
    if st.trailing {
        return Err(ArgsError::UnknownArgument(tok.clone()));
    }
    let v = chars_of(tok.as_str());
    let n = v.len();
    if n == 2 && v[0] == '-' && v[1] == '-' {
        assert(v@ =~= seq!['-', '-']);
        return Ok(ParseState { trailing: true, ..st });
    }
    assert(v@ != seq!['-', '-']) by {
        if v@ == seq!['-', '-'] {
            assert(v@.len() == 2 && v@[0] == '-' && v@[1] == '-');
        }
    }
    if n >= 2 && v[0] == '-' && v[1] == '-' {
        let k = find_eq(&v, 2);
        let key = exec_lookup_long(&v, 2, k);
        match key {
            None => {
                assert(v@.subrange(0, k as int) =~= seq!['-', '-'] + v@.subrange(2, k as int));
                Err(ArgsError::UnknownArgument(string_of(&v, 0, k)))
            },
            Some(key) => {
                let value = if k < n {
                    Some(sub_chars(&v, k + 1, n))
                } else {
                    None
                };
                exec_apply_key(st, key, value)
            },
        }
    } else if n >= 2 && v[0] == '-' {
        let key = exec_lookup_short(v[1]);
        match key {
            None => {
                assert(v@.subrange(0, 2) =~= seq!['-', v@[1]]);
                Err(ArgsError::UnknownArgument(string_of(&v, 0, 2)))
            },
            Some(Key::Value(a)) => {
                let ghost rest = v@.subrange(2, n as int);
                let value = if n == 2 {
                    None
                } else if v[2] == '=' {
                    assert(rest.drop_first() =~= v@.subrange(3, n as int));
                    Some(sub_chars(&v, 3, n))
                } else {
                    Some(sub_chars(&v, 2, n))
                };
                exec_apply_key(st, Key::Value(a), value)
            },
            Some(key) => exec_apply_key(st, key, None),
        }
    } else {
        match st.pending {
            PendingValue::Awaiting(a) => Ok(ParseState { pending: PendingValue::Filled(a, v), ..st }),
            _ => Err(ArgsError::UnknownArgument(tok.clone())),
        }
    }
}

fn exec_finish(st: ParseState) -> (r: Result<Args, ArgsError>)
    ensures
        args_result_view(r) == finish(st.model()),
{
    let q = exec_resolve(st)?;
    if q.cli && q.tui {
        if q.cli_after_tui {
            return Err(ArgsError::Conflict(FlagArg::Tui, FlagArg::Cli));
        }
        return Err(ArgsError::Conflict(FlagArg::Cli, FlagArg::Tui));
    }
    let url = match q.url {
        Some(u) => u,
        None => String::new(),
    };
    let concurrency = match q.concurrency {
        Some(n) => n,
        None => DEFAULT_CONCURRENCY,
    };
    let ua = match q.ua {
        Some(u) => u,
        None => DEFAULT_USER_AGENT.to_owned(),
    };
    Ok(
        Args {
            url,
            concurrency,
            ua,
            mainland: q.mainland,
            overseas: q.overseas,
            cli: q.cli,
            tui: q.tui,
        },
    )
}

impl Args {
    /// Reads a command line whose first element names the program.
    ///
    /// The result is the one the grammar gives, [`spec_parse`], and on success
    /// `--cli` and `--tui` are never both set.
    pub fn try_parse_from(argv: &Vec<String>) -> (r: Result<Args, ArgsError>)
        ensures
            args_result_view(r) == spec_parse(argv@.map_values(|s: String| s@)),
            r matches Ok(a) ==> !(a.cli && a.tui),
    {
        let ghost toks = argv@.map_values(|s: String| s@);
        let mut st = ParseState {
            url: None,
            concurrency: None,
            ua: None,
            mainland: false,
            overseas: false,
            cli: false,
            tui: false,
            cli_after_tui: false,
            pending: PendingValue::Nothing,
            trailing: false,
        };
        if argv.len() == 0 {
            return exec_finish(st);
        }
        assert(toks.drop_first() =~= toks.subrange(1, toks.len() as int));
        let mut i: usize = 1;
        while i < argv.len()
            invariant
                1 <= i <= argv@.len(),
                toks == argv@.map_values(|s: String| s@),
                run(initial_model(), toks.drop_first()) == run(st.model(), toks.subrange(i as int, toks.len() as int)),
            decreases argv@.len() - i,
        {
            let ghost rest = toks.subrange(i as int, toks.len() as int);
            assert(rest[0] == argv@[i as int]@);
            assert(rest.drop_first() =~= toks.subrange(i + 1, toks.len() as int));
            match exec_step(st, &argv[i]) {
                Ok(next) => {
                    st = next;
                },
                Err(e) => {
                    return Err(e);
                },
            }
            i += 1;
        }
        assert(toks.subrange(i as int, toks.len() as int) =~= Seq::<Seq<char>>::empty());
        exec_finish(st)
    }
}

} // verus!
