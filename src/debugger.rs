//! A line-oriented debugger over any target that can run one instruction and
//! read memory. The library parses commands and keeps the breakpoints; the
//! host reads lines, prints replies and runs `continue` to the next
//! breakpoint.
use vstd::prelude::*;
use vstd::string::StringSliceAdditionalSpecFns;
use std::marker::PhantomData;
use crate::bus::BusHandler;

verus! {

/// A target that the debugger drives.
pub trait DebugHandler<B: BusHandler> {
    /// Runs one instruction; returns the address of the next one.
    fn step(&mut self, bus: &mut B) -> usize;

    /// Shows the state of the target.
    fn print_debug(&mut self, bus: &mut B);

    /// Reads the byte at `addr` without side effects.
    fn peek(&mut self, bus: &mut B, addr: usize) -> u8;
}

/// A debugger command.
#[derive(Clone, Copy, Debug, PartialEq, Eq, Structural)]
pub enum Command {
    /// `help`
    Help,
    /// `setbp <hex>`, `bp <hex>`, `break <hex>`
    SetBp(usize),
    /// `clrbp <hex>`
    ClrBp(usize),
    /// `showbp`
    ShowBp,
    /// `peek <hex>`
    Peek(usize),
    /// `step`, `s`, `next`, `n`
    Step,
    /// `continue`, `c`
    Continue,
    /// `exit`
    Exit,
    /// A known command whose address is not a hex number: ignored.
    BadAddress,
    /// A line without words: ignored.
    Empty,
    /// Anything else.
    Unrecognized,
}

/// What the host shows after a command.
#[derive(Debug, PartialEq, Eq)]
pub enum Reply {
    Nothing,
    Help,
    Breakpoints(Vec<usize>),
    Peek(usize, u8),
    /// Run instructions until one stands at a breakpoint.
    Continue,
    Unrecognized,
}

// ----- words -----

pub open spec fn is_space(c: u8) -> bool {
    c == 0x20 || c == 0x09 || c == 0x0A || c == 0x0C || c == 0x0D
}

/// Value of a hex digit, or -1.
pub open spec fn hex_digit(c: u8) -> int {
    if 0x30 <= c <= 0x39 {
        c - 0x30
    } else if 0x61 <= c <= 0x66 {
        c - 0x61 + 10
    } else if 0x41 <= c <= 0x46 {
        c - 0x41 + 10
    } else {
        -1
    }
}

pub open spec fn all_hex(s: Seq<u8>) -> bool {
    forall|i: int| 0 <= i < s.len() ==> hex_digit(#[trigger] s[i]) >= 0
}

/// The number that the hex digits `s` write.
pub open spec fn hex_value(s: Seq<u8>) -> int
    decreases s.len(),
{
    if s.len() == 0 {
        0
    } else {
        hex_value(s.drop_last()) * 16 + hex_digit(s.last())
    }
}

/// `s` without one leading `0x`.
pub open spec fn strip_0x(s: Seq<u8>) -> Seq<u8> {
    if s.len() >= 2 && s[0] == 0x30 && s[1] == 0x78 {
        s.subrange(2, s.len() as int)
    } else {
        s
    }
}

/// The address that a word writes: hex digits, perhaps after `0x`.
pub open spec fn address_spec(w: Seq<u8>) -> Option<usize> {
    let d = strip_0x(w);
    if d.len() > 0 && all_hex(d) && hex_value(d) <= usize::MAX {
        Some(hex_value(d) as usize)
    } else {
        None
    }
}

/// A keyword as bytes.
pub open spec fn kw(s: &str) -> Seq<u8> {
    s.spec_bytes()
}

/// The command that the words `ws` make.
pub open spec fn command_spec(ws: Seq<Seq<u8>>) -> Command {
    if ws.len() == 0 {
        Command::Empty
    } else if ws.len() == 1 {
        let w = ws[0];
        if w == kw("help") {
            Command::Help
        } else if w == kw("showbp") {
            Command::ShowBp
        } else if w == kw("step") || w == kw("s") || w == kw("next") || w == kw("n") {
            Command::Step
        } else if w == kw("continue") || w == kw("c") {
            Command::Continue
        } else if w == kw("exit") {
            Command::Exit
        } else {
            Command::Unrecognized
        }
    } else if ws.len() == 2 {
        let w = ws[0];
        let a = address_spec(ws[1]);
        if w == kw("setbp") || w == kw("bp") || w == kw("break") {
            match a {
                Some(x) => Command::SetBp(x),
                None => Command::BadAddress,
            }
        } else if w == kw("clrbp") {
            match a {
                Some(x) => Command::ClrBp(x),
                None => Command::BadAddress,
            }
        } else if w == kw("peek") {
            match a {
                Some(x) => Command::Peek(x),
                None => Command::BadAddress,
            }
        } else {
            Command::Unrecognized
        }
    } else {
        Command::Unrecognized
    }
}

/// The words of `s`: its maximal runs of bytes that are not ASCII white
/// space, in order.
pub open spec fn words_spec(s: Seq<u8>) -> Seq<Seq<u8>>
    decreases s.len(),
{
    if s.len() == 0 {
        seq![]
    } else {
        let rest = words_spec(s.drop_last());
        if is_space(s.last()) {
            rest
        } else if s.len() >= 2 && !is_space(s[s.len() - 2]) {
            rest.update(rest.len() - 1, rest.last().push(s.last()))
        } else {
            rest.push(seq![s.last()])
        }
    }
}

proof fn lemma_words_nonempty(s: Seq<u8>)
    requires
        s.len() > 0,
        !is_space(s.last()),
    ensures
        words_spec(s).len() > 0,
        words_spec(s).last().len() > 0,
    decreases s.len(),
{
    if s.len() >= 2 && !is_space(s[s.len() - 2]) {
        assert(s.drop_last().last() == s[s.len() - 2]);
        lemma_words_nonempty(s.drop_last());
    }
}

/// Splits `b` into its words.
pub fn split_words(b: &[u8]) -> (r: Vec<Vec<u8>>)
    ensures
        r@.len() == words_spec(b@).len(),
        forall|i: int| 0 <= i < r@.len() ==> #[trigger] r@[i]@ == words_spec(b@)[i],
{
    let mut out: Vec<Vec<u8>> = Vec::new();
    let mut i: usize = 0;
    while i < b.len()
        invariant
            i <= b@.len(),
            out@.len() == words_spec(b@.subrange(0, i as int)).len(),
            forall|j: int|
                0 <= j < out@.len() ==> #[trigger] out@[j]@ == words_spec(
                    b@.subrange(0, i as int),
                )[j],
        decreases b.len() - i,
    {
        let c = b[i];
        let ghost prefix = b@.subrange(0, i as int);
        let ghost next = b@.subrange(0, i + 1);
        proof {
            assert(next.drop_last() =~= prefix);
            assert(next.last() == c);
        }
        let space = c == 0x20 || c == 0x09 || c == 0x0A || c == 0x0C || c == 0x0D;
        if space {
        } else if i >= 1 && !(b[i - 1] == 0x20 || b[i - 1] == 0x09 || b[i - 1] == 0x0A || b[i
            - 1] == 0x0C || b[i - 1] == 0x0D) {
            proof {
                assert(next[next.len() - 2] == b@[i - 1]);
                assert(prefix.last() == b@[i - 1]);
                lemma_words_nonempty(prefix);
            }
            let last = out.len() - 1;
            let mut w = out.pop().unwrap();
            w.push(c);
            out.push(w);
            proof {
                let rest = words_spec(prefix);
                assert(words_spec(next) == rest.update(rest.len() - 1, rest.last().push(c)));
                assert forall|j: int| 0 <= j < out@.len() implies #[trigger] out@[j]@ == words_spec(
                    next,
                )[j] by {
                    if j < last as int {
                    } else {
                    }
                }
            }
        } else {
            let mut w: Vec<u8> = Vec::new();
            w.push(c);
            out.push(w);
            proof {
                assert(w@ =~= seq![c]);
            }
        }
        i = i + 1;
    }
    proof {
        assert(b@.subrange(0, b@.len() as int) =~= b@);
    }
    out
}

/// Value of a hex digit, or `None`.
pub fn hex_digit_of(c: u8) -> (r: Option<u8>)
    ensures
        match r {
            Some(d) => hex_digit(c) == d as int && d < 16,
            None => hex_digit(c) < 0,
        },
{
    if 0x30 <= c && c <= 0x39 {
        Some(c - 0x30)
    } else if 0x61 <= c && c <= 0x66 {
        Some(c - 0x61 + 10)
    } else if 0x41 <= c && c <= 0x46 {
        Some(c - 0x41 + 10)
    } else {
        None
    }
}

/// The address that a word writes: hex digits, perhaps after `0x`.
pub fn parse_address(w: &Vec<u8>) -> (r: Option<usize>)
    ensures
        r == address_spec(w@),
{
    let start: usize = if w.len() >= 2 && w[0] == 0x30 && w[1] == 0x78 {
        2
    } else {
        0
    };
    let ghost d = strip_0x(w@);
    proof {
        assert(d =~= w@.subrange(start as int, w@.len() as int));
    }
    if start == w.len() {
        return None;
    }
    let mut v: usize = 0;
    let mut i: usize = start;
    while i < w.len()
        invariant
            start <= i <= w@.len(),
            d == strip_0x(w@),
            d =~= w@.subrange(start as int, w@.len() as int),
            all_hex(d.subrange(0, i - start)),
            v as int == hex_value(d.subrange(0, i - start)),
        decreases w.len() - i,
    {
        let ghost before = d.subrange(0, i - start);
        let ghost after = d.subrange(0, i + 1 - start);
        proof {
            assert(after.drop_last() =~= before);
            assert(after.last() == w@[i as int]);
        }
        match hex_digit_of(w[i]) {
            None => {
                proof {
                    assert(d[i - start] == w@[i as int]);
                    assert(hex_digit(d[i - start]) < 0);
                    assert(!all_hex(d));
                }
                return None;
            },
            Some(digit) => {
                if v > (usize::MAX - digit as usize) / 16 {
                    proof {
                        let m = usize::MAX as int;
                        let dg = digit as int;
                        let vv = v as int;
                        assert(vv * 16 + dg > m) by (nonlinear_arith)
                            requires
                                vv > (m - dg) / 16,
                                0 <= dg < 16,
                                m >= dg,
                        ;
                        assert(d[i - start] == w@[i as int]);
                        assert(hex_value(after) == vv * 16 + dg);
                        lemma_hex_value_grows(d, (i + 1 - start) as int);
                    }
                    return None;
                }
                v = v * 16 + digit as usize;
                proof {
                    assert forall|j: int| 0 <= j < after.len() implies hex_digit(
                        #[trigger] after[j],
                    ) >= 0 by {
                        if j < before.len() {
                            assert(after[j] == before[j]);
                        }
                    }
                }
            },
        }
        i = i + 1;
    }
    proof {
        assert(d.subrange(0, d.len() as int) =~= d);
    }
    Some(v)
}

/// A number written by more hex digits is at least that written by fewer.
proof fn lemma_hex_value_grows(d: Seq<u8>, k: int)
    requires
        0 < k <= d.len(),
        all_hex(d.subrange(0, k - 1)),
        hex_digit(d[k - 1]) >= 0,
    ensures
        all_hex(d) ==> hex_value(d) >= hex_value(d.subrange(0, k)),
    decreases d.len() - k,
{
    if all_hex(d) && k < d.len() {
        assert(all_hex(d.subrange(0, k))) by {
            assert forall|j: int| 0 <= j < k implies hex_digit(#[trigger] d.subrange(0, k)[j])
                >= 0 by {
                assert(d.subrange(0, k)[j] == d[j]);
            }
        }
        assert(d.subrange(0, k + 1).drop_last() =~= d.subrange(0, k));
        assert(hex_value(d.subrange(0, k + 1)) >= hex_value(d.subrange(0, k))) by {
            lemma_hex_value_nonneg(d.subrange(0, k));
        }
        assert(all_hex(d.subrange(0, k))) ;
        lemma_hex_value_grows(d, k + 1);
        if k + 1 == d.len() {
            assert(d.subrange(0, k + 1) =~= d);
        }
    } else if all_hex(d) {
        assert(d.subrange(0, k) =~= d);
    }
}

proof fn lemma_hex_value_nonneg(d: Seq<u8>)
    requires
        all_hex(d),
    ensures
        hex_value(d) >= 0,
    decreases d.len(),
{
    if d.len() > 0 {
        assert(all_hex(d.drop_last())) by {
            assert forall|j: int| 0 <= j < d.len() - 1 implies hex_digit(
                #[trigger] d.drop_last()[j],
            ) >= 0 by {
                assert(d.drop_last()[j] == d[j]);
            }
        }
        lemma_hex_value_nonneg(d.drop_last());
    }
}

/// `w` is the keyword `k`.
pub fn is_word(w: &Vec<u8>, k: &str) -> (r: bool)
    ensures
        r == (w@ == k.spec_bytes()),
{
    let kb = k.as_bytes();
    if w.len() != kb.len() {
        return false;
    }
    let mut i: usize = 0;
    while i < w.len()
        invariant
            i <= w@.len(),
            w@.len() == kb@.len(),
            kb@ == k.spec_bytes(),
            forall|j: int| 0 <= j < i ==> w@[j] == kb@[j],
        decreases w.len() - i,
    {
        if w[i] != kb[i] {
            return false;
        }
        i = i + 1;
    }
    proof {
        assert(w@ =~= kb@);
    }
    true
}

/// The command that a line of input holds.
pub fn parse_command(line: &str) -> (r: Command)
    ensures
        r == command_spec(words_spec(line.spec_bytes())),
{
    let ws = split_words(line.as_bytes());
    let ghost spec_ws = words_spec(line.spec_bytes());
    if ws.len() == 0 {
        Command::Empty
    } else if ws.len() == 1 {
        let w = &ws[0];
        if is_word(w, "help") {
            Command::Help
        } else if is_word(w, "showbp") {
            Command::ShowBp
        } else if is_word(w, "step") || is_word(w, "s") || is_word(w, "next") || is_word(w, "n") {
            Command::Step
        } else if is_word(w, "continue") || is_word(w, "c") {
            Command::Continue
        } else if is_word(w, "exit") {
            Command::Exit
        } else {
            Command::Unrecognized
        }
    } else if ws.len() == 2 {
        let w = &ws[0];
        let a = parse_address(&ws[1]);
        if is_word(w, "setbp") || is_word(w, "bp") || is_word(w, "break") {
            match a {
                Some(x) => Command::SetBp(x),
                None => Command::BadAddress,
            }
        } else if is_word(w, "clrbp") {
            match a {
                Some(x) => Command::ClrBp(x),
                None => Command::BadAddress,
            }
        } else if is_word(w, "peek") {
            match a {
                Some(x) => Command::Peek(x),
                None => Command::BadAddress,
            }
        } else {
            Command::Unrecognized
        }
    } else {
        Command::Unrecognized
    }
}

proof fn lemma_push_contains(s: Seq<usize>, v: usize)
    ensures
        forall|x: usize| #[trigger] s.push(v).contains(x) <==> (s.contains(x) || x == v),
{
    assert forall|x: usize| #[trigger] s.push(v).contains(x) <==> (s.contains(x) || x == v) by {
        if s.push(v).contains(x) {
            let j = choose|j: int| 0 <= j < s.len() + 1 && s.push(v)[j] == x;
            if j < s.len() {
                assert(s[j] == x);
            }
        }
        if s.contains(x) {
            let j = choose|j: int| 0 <= j < s.len() && s[j] == x;
            assert(s.push(v)[j] == x);
        }
        if x == v {
            assert(s.push(v)[s.len() as int] == v);
        }
    }
}

/// A debugger over the target `T` on a bus of type `B`.
pub struct Debugger<B: BusHandler, T: DebugHandler<B>> {
    target: T,
    brk: Vec<usize>,
    exit: bool,
    bus: PhantomData<B>,
}

impl<B: BusHandler, T: DebugHandler<B>> Debugger<B, T> {
    /// The addresses that stop `continue`.
    pub closed spec fn breakpoint_set(&self) -> Set<usize> {
        self.brk@.to_set()
    }

    /// `exit` was entered.
    pub closed spec fn has_exited(&self) -> bool {
        self.exit
    }

    /// The target that the debugger drives.
    pub closed spec fn target(&self) -> T {
        self.target
    }

    /// A debugger over `dbg`, with no breakpoints.
    pub fn new(dbg: T) -> (r: Self)
        ensures
            r.breakpoint_set() == Set::<usize>::empty(),
            !r.has_exited(),
            r.target() == dbg,
    {
        let r = Debugger { target: dbg, brk: Vec::new(), exit: false, bus: PhantomData };
        proof {
            assert(r.brk@.to_set() =~= Set::<usize>::empty());
        }
        r
    }

    /// Adds a breakpoint at `addr`.
    pub fn set_bp(&mut self, addr: usize)
        ensures
            final(self).target() == old(self).target(),
            final(self).breakpoint_set() == old(self).breakpoint_set().insert(addr),
            final(self).has_exited() == old(self).has_exited(),
    {
        if !self.is_breakpoint(addr) {
            self.brk.push(addr);
            proof {
                lemma_push_contains(old(self).brk@, addr);
            }
        }
        proof {
            assert(self.brk@.to_set() =~= old(self).brk@.to_set().insert(addr));
        }
    }

    /// Removes the breakpoint at `addr`, if there is one.
    pub fn clr_bp(&mut self, addr: usize)
        ensures
            final(self).target() == old(self).target(),
            final(self).breakpoint_set() == old(self).breakpoint_set().remove(addr),
            final(self).has_exited() == old(self).has_exited(),
    {
        let mut kept: Vec<usize> = Vec::new();
        let mut i: usize = 0;
        while i < self.brk.len()
            invariant
                i <= self.brk@.len(),
                self.brk@ == old(self).brk@,
                self.exit == old(self).exit,
                self.target == old(self).target,
                forall|x: usize|
                    kept@.contains(x) <==> (x != addr && self.brk@.subrange(0, i as int).contains(
                        x,
                    )),
            decreases self.brk.len() - i,
        {
            let b = self.brk[i];
            let ghost before = kept@;
            if b != addr {
                kept.push(b);
                proof {
                    lemma_push_contains(before, b);
                }
            }
            proof {
                assert(self.brk@.subrange(0, i + 1) =~= self.brk@.subrange(0, i as int).push(b));
                lemma_push_contains(self.brk@.subrange(0, i as int), b);
            }
            i = i + 1;
        }
        proof {
            assert(self.brk@.subrange(0, self.brk@.len() as int) =~= self.brk@);
        }
        self.brk = kept;
        proof {
            assert(self.brk@.to_set() =~= old(self).brk@.to_set().remove(addr));
        }
    }

    /// There is a breakpoint at `addr`.
    pub fn is_breakpoint(&self, addr: usize) -> (r: bool)
        ensures
            r == self.breakpoint_set().contains(addr),
    {
        let mut i: usize = 0;
        while i < self.brk.len()
            invariant
                i <= self.brk@.len(),
                forall|j: int| 0 <= j < i ==> self.brk@[j] != addr,
            decreases self.brk.len() - i,
        {
            if self.brk[i] == addr {
                proof {
                    assert(self.brk@.contains(addr));
                }
                return true;
            }
            i = i + 1;
        }
        false
    }

    /// The breakpoints, in the order they were set.
    pub fn breakpoints(&self) -> (r: Vec<usize>)
        ensures
            r@.to_set() == self.breakpoint_set(),
    {
        let mut out: Vec<usize> = Vec::new();
        let mut i: usize = 0;
        while i < self.brk.len()
            invariant
                i <= self.brk@.len(),
                out@ == self.brk@.subrange(0, i as int),
            decreases self.brk.len() - i,
        {
            out.push(self.brk[i]);
            proof {
                assert(out@ =~= self.brk@.subrange(0, i + 1));
            }
            i = i + 1;
        }
        proof {
            assert(out@ =~= self.brk@);
        }
        out
    }

    /// `exit` was entered.
    pub fn exited(&self) -> (r: bool)
        ensures
            r == self.has_exited(),
    {
        self.exit
    }

    /// Shows the state of the target.
    pub fn show(&mut self, bus: &mut B)
        ensures
            final(self).breakpoint_set() == old(self).breakpoint_set(),
            final(self).has_exited() == old(self).has_exited(),
    {
        self.target.print_debug(bus);
    }

    /// Runs one instruction of the target; returns the address of the next.
    pub fn step(&mut self, bus: &mut B) -> (r: usize)
        ensures
            final(self).breakpoint_set() == old(self).breakpoint_set(),
            final(self).has_exited() == old(self).has_exited(),
    {
        self.target.step(bus)
    }

    /// Carries out one line of input.
    pub fn process_input(&mut self, bus: &mut B, line: &str) -> (r: Reply)
        ensures
            ({
                let cmd = command_spec(words_spec(line.spec_bytes()));
                &&& final(self).breakpoint_set() == match cmd {
                    Command::SetBp(a) => old(self).breakpoint_set().insert(a),
                    Command::ClrBp(a) => old(self).breakpoint_set().remove(a),
                    _ => old(self).breakpoint_set(),
                }
                &&& final(self).has_exited() == (old(self).has_exited() || cmd == Command::Exit)
                &&& (cmd != Command::Step && !(cmd is Peek)) ==> {
                    &&& final(self).target() == old(self).target()
                    &&& *final(bus) == *old(bus)
                }
                &&& match cmd {
                    Command::Help => r == Reply::Help,
                    Command::ShowBp => match r {
                        Reply::Breakpoints(v) => v@.to_set() == old(self).breakpoint_set(),
                        _ => false,
                    },
                    Command::Peek(a) => match r {
                        Reply::Peek(x, _) => x == a,
                        _ => false,
                    },
                    Command::Continue => r == Reply::Continue,
                    Command::Unrecognized => r == Reply::Unrecognized,
                    _ => r == Reply::Nothing,
                }
            }),
    {
        match parse_command(line) {
            Command::Help => Reply::Help,
            Command::SetBp(addr) => {
                self.set_bp(addr);
                Reply::Nothing
            },
            Command::ClrBp(addr) => {
                self.clr_bp(addr);
                Reply::Nothing
            },
            Command::ShowBp => Reply::Breakpoints(self.breakpoints()),
            Command::Peek(addr) => {
                let v = self.target.peek(bus, addr);
                Reply::Peek(addr, v)
            },
            Command::Step => {
                self.target.step(bus);
                Reply::Nothing
            },
            Command::Continue => Reply::Continue,
            Command::Exit => {
                self.exit = true;
                Reply::Nothing
            },
            Command::Unrecognized => Reply::Unrecognized,
            Command::BadAddress | Command::Empty => Reply::Nothing,
        }
    }
}

} // verus!
