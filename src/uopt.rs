//! A scanner for command lines in the usual option syntax, driven by a visitor.
//!
//! `--name` is a long flag and `--name=value` a long option with a value; `-abc` is a cluster
//! of short flags; `--` ends the options; everything else is an argument. The visitor answers
//! each call with an optional [`Hint`]: `Capture` makes the flag take a value, `StopOptions`
//! turns the rest of the line into arguments, `Halt` ends the scan.

use vstd::prelude::*;
use vstd::string::*;
use crate::text::{
    attached_of, attached_piece, clone_string, head_of, opt_view, rest_of, split_at_equals, str_eq,
};

verus! {

/// A visitor's answer to one call.
#[derive(Clone, Copy, PartialEq, Eq, Structural, Debug)]
pub enum Hint {
    Capture,
    StopOptions,
    Halt,
}

/// Receives what the scan finds.
pub trait Visitor {
    fn visit_argument(&mut self, argument: &str) -> Option<Hint>;

    fn visit_flag(&mut self, option: &str) -> Option<Hint>;

    fn visit_parameter(&mut self, name: &str, parameter: Option<&str>) -> Option<Hint>;
}

/// One call to make on a visitor.
#[derive(Debug, PartialEq)]
pub enum Call {
    Argument(String),
    Flag(String),
    Parameter(String, Option<String>),
}

/// What one argument of a command line is.
#[derive(Debug, PartialEq)]
pub enum Token {
    /// `--`, while options are recognised.
    EndOfOptions,
    /// `--name=value`: the name, and the value up to any further `'='`.
    LongParameter(String, Option<String>),
    /// `--name`.
    LongFlag(String),
    /// `-abc`: the letters after the dash.
    Cluster(String),
    /// Anything else.
    Argument(String),
}

pub enum TokenV {
    EndOfOptions,
    LongParameter(Seq<char>, Option<Seq<char>>),
    LongFlag(Seq<char>),
    Cluster(Seq<char>),
    Argument(Seq<char>),
}

impl View for Token {
    type V = TokenV;

    open spec fn view(&self) -> TokenV {
        match self {
            Token::EndOfOptions => TokenV::EndOfOptions,
            Token::LongParameter(n, v) => TokenV::LongParameter(n@, opt_view(*v)),
            Token::LongFlag(t) => TokenV::LongFlag(t@),
            Token::Cluster(t) => TokenV::Cluster(t@),
            Token::Argument(a) => TokenV::Argument(a@),
        }
    }
}

/// What the argument `a` is: `take_options` tells whether options are still recognised,
/// `second` and `third` whether its second and its third character are letters.
pub fn token(a: &str, take_options: bool, second: bool, third: bool) -> (r: Token)
    ensures
        r@ == token_of(a@, take_options, second, third),
{
    let len = a.unicode_len();
    if take_options && str_eq(a, "--") {
        return Token::EndOfOptions;
    }
    if take_options && len >= 3 && a.get_char(0) == '-' && a.get_char(1) == '-' && third {
        let t = a.substring_char(2, len);
        let (name, rest) = split_at_equals(t);
        if rest.is_some() {
            return Token::LongParameter(name, attached_piece(t));
        } else {
            return Token::LongFlag(t.to_owned());
        }
    }
    if take_options && len >= 2 && a.get_char(0) == '-' && second {
        return Token::Cluster(a.substring_char(1, len).to_owned());
    }
    Token::Argument(a.to_owned())
}

/// How the hint to the call that is out is taken.
pub enum Mode {
    /// No call is out.
    Ready,
    /// Only `StopOptions` and `Halt` count.
    Plain,
    /// A long flag: `Capture` makes it take the next argument.
    LongFlag(String),
    /// A value taken from the next argument: that argument is consumed afterwards.
    Captured,
    /// The flag at this position of a short cluster.
    Short(String, usize),
}

/// A scan in progress.
pub struct Scanner {
    args: Vec<String>,
    pos: usize,
    take_options: bool,
    halted: bool,
    mode: Mode,
    queued: Option<Call>,
}

/// Whether `c` has the Unicode `Alphabetic` property.
pub uninterp spec fn alphabetic(c: char) -> bool;

/// Relies on `char::is_alphabetic`, which depends on the character alone.
#[verifier::external_body]
fn is_alphabetic(c: char) -> (r: bool)
    ensures
        r == alphabetic(c),
{
    c.is_alphabetic()
}

pub enum CallV {
    Argument(Seq<char>),
    Flag(Seq<char>),
    Parameter(Seq<char>, Option<Seq<char>>),
}

pub enum ModeV {
    Ready,
    Plain,
    LongFlag(Seq<char>),
    Captured,
    Short(Seq<char>, nat),
}

pub struct ScanV {
    pub args: Seq<Seq<char>>,
    pub pos: nat,
    pub take_options: bool,
    pub halted: bool,
    pub mode: ModeV,
    pub queued: Option<CallV>,
}


impl View for Call {
    type V = CallV;

    open spec fn view(&self) -> CallV {
        match self {
            Call::Argument(a) => CallV::Argument(a@),
            Call::Flag(f) => CallV::Flag(f@),
            Call::Parameter(n, p) => CallV::Parameter(n@, opt_view(*p)),
        }
    }
}

pub open spec fn opt_call(o: Option<Call>) -> Option<CallV> {
    match o {
        Some(c) => Some(c@),
        None => None,
    }
}

impl View for Mode {
    type V = ModeV;

    open spec fn view(&self) -> ModeV {
        match self {
            Mode::Ready => ModeV::Ready,
            Mode::Plain => ModeV::Plain,
            Mode::LongFlag(t) => ModeV::LongFlag(t@),
            Mode::Captured => ModeV::Captured,
            Mode::Short(t, k) => ModeV::Short(t@, *k as nat),
        }
    }
}

impl View for Scanner {
    type V = ScanV;

    closed spec fn view(&self) -> ScanV {
        ScanV {
            args: self.args@.map_values(|s: String| s@),
            pos: self.pos as nat,
            take_options: self.take_options,
            halted: self.halted,
            mode: self.mode@,
            queued: opt_call(self.queued),
        }
    }
}

/// What one argument is, given whether its second and its third character are letters.
pub open spec fn token_of(a: Seq<char>, take_options: bool, second: bool, third: bool) -> TokenV {
    if take_options && a == "--"@ {
        TokenV::EndOfOptions
    } else if take_options && a.len() >= 3 && a[0] == '-' && a[1] == '-' && third {
        let t = a.subrange(2, a.len() as int);
        if rest_of(t) is Some {
            TokenV::LongParameter(head_of(t), attached_of(t))
        } else {
            TokenV::LongFlag(t)
        }
    } else if take_options && a.len() >= 2 && a[0] == '-' && second {
        TokenV::Cluster(a.subrange(1, a.len() as int))
    } else {
        TokenV::Argument(a)
    }
}

/// What one argument is.
pub open spec fn token_at(a: Seq<char>, take_options: bool) -> TokenV {
    token_of(a, take_options, a.len() >= 2 && alphabetic(a[1]), a.len() >= 3 && alphabetic(a[2]))
}

/// From the next unread argument on: the first call, and the state after it.
pub open spec fn scan(s: ScanV) -> (ScanV, Option<CallV>)
    decreases s.args.len() - s.pos,
{
    if s.pos >= s.args.len() {
        (ScanV { mode: ModeV::Ready, ..s }, None)
    } else {
        let next = s.pos + 1;
        match token_at(s.args[s.pos as int], s.take_options) {
            TokenV::EndOfOptions => scan(ScanV { pos: next, take_options: false, ..s }),
            TokenV::LongParameter(name, value) => (
                ScanV { pos: next, mode: ModeV::Plain, ..s },
                Some(CallV::Parameter(name, value)),
            ),
            TokenV::LongFlag(t) => (
                ScanV { pos: next, mode: ModeV::LongFlag(t), ..s },
                Some(CallV::Flag(t)),
            ),
            TokenV::Cluster(t) => (
                ScanV { pos: next, mode: ModeV::Short(t, 0), ..s },
                Some(CallV::Flag(t.subrange(0, 1))),
            ),
            TokenV::Argument(a) => (
                ScanV { pos: next, mode: ModeV::Plain, ..s },
                Some(CallV::Argument(a)),
            ),
        }
    }
}

/// The next call to make, and the state after it; `None` when the scan is over.
pub open spec fn next_spec(s: ScanV) -> (ScanV, Option<CallV>) {
    if s.halted {
        (s, None)
    } else if s.queued is Some {
        (ScanV { queued: None, ..s }, s.queued)
    } else {
        scan(s)
    }
}

/// The argument after the one read last, which a capturing flag takes as its value.
pub open spec fn peek(s: ScanV) -> Option<Seq<char>> {
    if s.pos < s.args.len() {
        Some(s.args[s.pos as int])
    } else {
        None
    }
}

/// What `StopOptions` and `Halt` do.
pub open spec fn apply(s: ScanV, hint: Option<Hint>) -> ScanV {
    match hint {
        Some(Hint::StopOptions) => ScanV { take_options: false, ..s },
        Some(Hint::Halt) => ScanV { halted: true, ..s },
        _ => s,
    }
}

/// Go on to the flag after position `k` of the cluster `t`, if there is one.
pub open spec fn cluster_on(s: ScanV, t: Seq<char>, k: nat) -> ScanV {
    if k + 1 < t.len() {
        ScanV {
            mode: ModeV::Short(t, k + 1),
            queued: Some(CallV::Flag(t.subrange(k as int + 1, k as int + 2))),
            ..s
        }
    } else {
        ScanV { mode: ModeV::Ready, ..s }
    }
}

/// The state once the visitor has answered the call that is out with `hint`.
pub open spec fn resume_spec(s: ScanV, hint: Option<Hint>) -> ScanV {
    match s.mode {
        ModeV::Ready => s,
        ModeV::Plain => apply(ScanV { mode: ModeV::Ready, ..s }, hint),
        ModeV::LongFlag(t) => if hint == Some(Hint::Capture) {
            ScanV { mode: ModeV::Captured, queued: Some(CallV::Parameter(t, peek(s))), ..s }
        } else {
            ScanV { mode: ModeV::Ready, ..s }
        },
        ModeV::Captured => {
            let s2 = apply(ScanV { mode: ModeV::Ready, ..s }, hint);
            if !s2.halted && s2.pos < s2.args.len() {
                ScanV { pos: s2.pos + 1, ..s2 }
            } else {
                s2
            }
        },
        ModeV::Short(t, k) => match hint {
            Some(Hint::StopOptions) => cluster_on(ScanV { take_options: false, ..s }, t, k),
            Some(Hint::Capture) => if k + 1 < t.len() {
                ScanV {
                    mode: ModeV::Plain,
                    queued: Some(
                        CallV::Parameter(
                            t.subrange(k as int, k as int + 1),
                            Some(t.subrange(k as int + 1, t.len() as int)),
                        ),
                    ),
                    ..s
                }
            } else {
                ScanV { mode: ModeV::Captured, queued: Some(CallV::Parameter(t, peek(s))), ..s }
            },
            Some(Hint::Halt) => ScanV { halted: true, ..s },
            None => cluster_on(s, t, k),
        },
    }
}

/// No call is out: the scanner waits for `next`.
pub open spec fn waiting(s: ScanV) -> bool {
    &&& s.pos <= s.args.len()
    &&& s.halted || (s.queued is None <==> s.mode is Ready)
    &&& s.queued is Some ==> !(s.mode is LongFlag)
    &&& s.mode matches ModeV::Short(t, k) ==> k < t.len()
}

/// A call is out: the scanner waits for `resume`.
pub open spec fn answering(s: ScanV) -> bool {
    &&& s.pos <= s.args.len()
    &&& !s.halted
    &&& s.queued is None
    &&& !(s.mode is Ready)
    &&& s.mode matches ModeV::Short(t, k) ==> k < t.len()
}

/// How much of the work that is queued is left.
pub open spec fn rank(s: ScanV) -> nat {
    if s.halted {
        0
    } else {
        match s.queued {
            Some(_) => match s.mode {
                ModeV::Short(t, k) => (t.len() - k + 2) as nat,
                _ => 1,
            },
            None => 0,
        }
    }
}

proof fn lemma_scan(s: ScanV)
    requires
        s.pos <= s.args.len(),
    ensures
        scan(s).0.args == s.args,
        scan(s).0.halted == s.halted,
        scan(s).0.queued == s.queued,
        scan(s).0.pos <= s.args.len(),
        scan(s).1 is Some ==> scan(s).0.pos > s.pos && !(scan(s).0.mode is Ready),
        scan(s).1 is None ==> scan(s).0.mode is Ready,
        scan(s).0.mode matches ModeV::Short(t, k) ==> k < t.len(),
    decreases s.args.len() - s.pos,
{
    if s.pos < s.args.len() {
        if token_at(s.args[s.pos as int], s.take_options) is EndOfOptions {
            lemma_scan(ScanV { pos: s.pos + 1, take_options: false, ..s });
        }
    }
}

/// Each call made and answered brings the scan closer to its end.
proof fn lemma_progress(s: ScanV, hint: Option<Hint>)
    requires
        waiting(s),
        next_spec(s).1 is Some,
    ensures
        answering(next_spec(s).0),
        waiting(resume_spec(next_spec(s).0, hint)),
        resume_spec(next_spec(s).0, hint).args == s.args,
        ({
            let s2 = resume_spec(next_spec(s).0, hint);
            s2.args.len() - s2.pos < s.args.len() - s.pos || (s2.args.len() - s2.pos == s.args.len()
                - s.pos && rank(s2) < rank(s))
        }),
{
    if s.queued is None {
        lemma_scan(s);
    }
}


impl Scanner {
    /// Starts a scan of `args`, with options recognised.
    pub fn new(args: Vec<String>) -> (r: Scanner)
        ensures
            r@ == (ScanV {
                args: args@.map_values(|s: String| s@),
                pos: 0,
                take_options: true,
                halted: false,
                mode: ModeV::Ready,
                queued: None,
            }),
            waiting(r@),
    {
        Scanner { args, pos: 0, take_options: true, halted: false, mode: Mode::Ready, queued: None }
    }


    /// The next call to make on the visitor, or `None` when the scan is over.
    pub fn next(&mut self) -> (r: Option<Call>)
        requires
            waiting(old(self)@),
        ensures
            (final(self)@, opt_call(r)) == next_spec(old(self)@),
    {
        if self.halted {
            return None;
        }
        if self.queued.is_some() {
            let mut q: Option<Call> = None;
            std::mem::swap(&mut self.queued, &mut q);
            return q;
        }
        let n = self.args.len();
        loop
            invariant
                n == self@.args.len(),
                self@.pos <= n,
                !self@.halted,
                self@.queued is None,
                scan(self@) == next_spec(old(self)@),
            decreases n - self@.pos,
        {
            if self.pos >= n {
                self.mode = Mode::Ready;
                return None;
            }
            let a = clone_string(&self.args[self.pos]);
            let len = a.as_str().unicode_len();
            let second = len >= 2 && is_alphabetic(a.as_str().get_char(1));
            let third = len >= 3 && is_alphabetic(a.as_str().get_char(2));
            let next = self.pos + 1;
            match token(a.as_str(), self.take_options, second, third) {
                Token::EndOfOptions => {
                    self.pos = next;
                    self.take_options = false;
                },
                Token::LongParameter(name, value) => {
                    self.pos = next;
                    self.mode = Mode::Plain;
                    return Some(Call::Parameter(name, value));
                },
                Token::LongFlag(t) => {
                    let flag = clone_string(&t);
                    self.pos = next;
                    self.mode = Mode::LongFlag(t);
                    return Some(Call::Flag(flag));
                },
                Token::Cluster(t) => {
                    let first = t.as_str().substring_char(0, 1).to_owned();
                    self.pos = next;
                    self.mode = Mode::Short(t, 0);
                    return Some(Call::Flag(first));
                },
                Token::Argument(arg) => {
                    self.pos = next;
                    self.mode = Mode::Plain;
                    return Some(Call::Argument(arg));
                },
            }
        }
    }

    fn peek(&self) -> (r: Option<String>)
        ensures
            opt_view(r) == peek(self@),
    {
        if self.pos < self.args.len() {
            Some(clone_string(&self.args[self.pos]))
        } else {
            None
        }
    }

    fn apply(&mut self, hint: Option<Hint>)
        ensures
            final(self)@ == apply(old(self)@, hint),
    {
        match hint {
            Some(Hint::StopOptions) => {
                self.take_options = false;
            },
            Some(Hint::Halt) => {
                self.halted = true;
            },
            _ => {},
        }
    }

    fn cluster_on(&mut self, t: String, k: usize)
        requires
            k < t@.len(),
        ensures
            final(self)@ == cluster_on(old(self)@, t@, k as nat),
    {
        let len = t.as_str().unicode_len();
        if k + 1 < len {
            let flag = t.as_str().substring_char(k + 1, k + 2).to_owned();
            self.mode = Mode::Short(t, k + 1);
            self.queued = Some(Call::Flag(flag));
        } else {
            self.mode = Mode::Ready;
        }
    }

    /// Takes the visitor's answer to the call that is out.
    pub fn resume(&mut self, hint: Option<Hint>)
        requires
            answering(old(self)@),
        ensures
            final(self)@ == resume_spec(old(self)@, hint),
    {
        let mut mode = Mode::Ready;
        std::mem::swap(&mut self.mode, &mut mode);
        match mode {
            Mode::Ready => {},
            Mode::Plain => self.apply(hint),
            Mode::LongFlag(t) => {
                if hint == Some(Hint::Capture) {
                    let value = self.peek();
                    self.mode = Mode::Captured;
                    self.queued = Some(Call::Parameter(t, value));
                }
            },
            Mode::Captured => {
                self.apply(hint);
                if !self.halted && self.pos < self.args.len() {
                    self.pos = self.pos + 1;
                }
            },
            Mode::Short(t, k) => {
                let len = t.as_str().unicode_len();
                match hint {
                    Some(Hint::StopOptions) => {
                        self.take_options = false;
                        self.cluster_on(t, k);
                    },
                    Some(Hint::Capture) => {
                        if k + 1 < len {
                            let name = t.as_str().substring_char(k, k + 1).to_owned();
                            let value = t.as_str().substring_char(k + 1, len).to_owned();
                            self.mode = Mode::Plain;
                            self.queued = Some(Call::Parameter(name, Some(value)));
                        } else {
                            let value = self.peek();
                            self.mode = Mode::Captured;
                            self.queued = Some(Call::Parameter(t, value));
                        }
                    },
                    Some(Hint::Halt) => {
                        self.mode = Mode::Short(t, k);
                        self.halted = true;
                    },
                    None => self.cluster_on(t, k),
                }
            },
        }
    }
}

/// Scans `arguments`, making each call on `visitor` in order and taking its answers, until the
/// arguments run out or the visitor halts.
pub fn visit<V: Visitor>(arguments: Vec<String>, visitor: &mut V) {
    let mut scanner = Scanner::new(arguments);
    loop
        invariant
            waiting(scanner@),
        decreases scanner@.args.len() - scanner@.pos, rank(scanner@),
    {
        let ghost before = scanner@;
        match scanner.next() {
            None => {
                return ;
            },
            Some(call) => {
                let hint = match &call {
                    Call::Argument(a) => visitor.visit_argument(a.as_str()),
                    Call::Flag(f) => visitor.visit_flag(f.as_str()),
                    Call::Parameter(name, Some(value)) => visitor.visit_parameter(
                        name.as_str(),
                        Some(value.as_str()),
                    ),
                    Call::Parameter(name, None) => visitor.visit_parameter(name.as_str(), None),
                };
                proof {
                    lemma_progress(before, hint);
                }
                scanner.resume(hint);
            },
        }
    }
}

} // verus!
