//! Information about a panic in a step or hook function, and its short
//! report: the panic message with the part of the backtrace that concerns
//! the user's code.

pub mod trace;

use vstd::prelude::*;
use vstd::string::StringExecFns;

use backtrace::Backtrace;

use crate::text::{decimal, decimal_text, right_aligned, right_align, starts_with, contains, occurs_in};

verus! {

/// The name of a resolved symbol, written with `to_string` (`full`, with
/// the hash) and in the alternate form (`short`).
#[derive(Debug, Clone)]
pub struct SymbolName {
    pub full: String,
    pub short: String,
}

/// A symbol resolved for a backtrace frame.
#[derive(Debug, Clone)]
pub struct Symbol {
    pub name: Option<SymbolName>,
    pub file: Option<String>,
    pub line: Option<u32>,
}

/// A frame of a backtrace: whether its instruction pointer is null, and its
/// symbols, innermost first.
#[derive(Debug, Clone)]
pub struct Frame {
    pub ip_is_null: bool,
    pub symbols: Vec<Symbol>,
}

/// Whether a symbol has a name outside the `backtrace` crate.
pub open spec fn named_outside_backtrace(s: Symbol) -> bool {
    s.name matches Some(n) && !"backtrace::"@.is_prefix_of(n.full@)
}

/// Whether a frame belongs in a short backtrace: its instruction pointer is
/// not null and one of its symbols is named outside the `backtrace` crate.
pub open spec fn is_reported_frame(f: Frame) -> bool {
    &&& !f.ip_is_null
    &&& exists|j: int| 0 <= j < f.symbols@.len() && #[trigger] named_outside_backtrace(f.symbols@[j])
}

/// Whether a symbol is not the entry point of a short backtrace: it has no
/// name, or one that does not hold `__rust_begin_short_backtrace`.
pub open spec fn not_short_backtrace_start(s: Symbol) -> bool {
    s.name matches Some(n) ==> !occurs_in("__rust_begin_short_backtrace"@, n.full@)
}

/// Whether a frame lies above the entry point of a short backtrace: one of its
/// symbols is not that entry point.
pub open spec fn above_short_backtrace_start(f: Frame) -> bool {
    exists|j: int| 0 <= j < f.symbols@.len() && #[trigger] not_short_backtrace_start(f.symbols@[j])
}

/// The frames a short backtrace shows: the frames that belong in it, up to the
/// first of them at the entry point of a short backtrace.
pub open spec fn shown_frames(frames: Seq<Frame>) -> Seq<Frame>
    decreases frames.len(),
{
    if frames.len() == 0 {
        Seq::empty()
    } else if !is_reported_frame(frames[0]) {
        shown_frames(frames.drop_first())
    } else if !above_short_backtrace_start(frames[0]) {
        Seq::empty()
    } else {
        seq![frames[0]] + shown_frames(frames.drop_first())
    }
}

/// A symbol name without one leading `<`.
pub open spec fn without_angle(name: Seq<char>) -> Seq<char> {
    if "<"@.is_prefix_of(name) {
        name.skip(1)
    } else {
        name
    }
}

/// Whether the file and line of a symbol are written: it has no name, or a
/// name outside the standard library, the runtime and this runner.
pub open spec fn writes_location(s: Symbol) -> bool {
    match s.name {
        None => true,
        Some(n) => {
            let name = without_angle(n.full@);
            !("std::"@.is_prefix_of(name) || "__rust"@.is_prefix_of(name) || "rust_begin_unwind"@.is_prefix_of(
                name,
            ) || "core::"@.is_prefix_of(name) || "alloc::"@.is_prefix_of(name) || "cuke_runner"@.is_prefix_of(
                name,
            ))
        },
    }
}

/// The text of the symbol at `index` of a frame.
pub open spec fn symbol_text(index: nat, s: Symbol) -> Seq<char> {
    (if index != 0 { "\n      "@ } else { Seq::empty() }) + (match s.name {
        Some(n) => n.short@,
        None => "<unknown>"@,
    }) + (if writes_location(s) && s.file is Some && s.line is Some {
        "\n             at "@ + s.file->0@ + ":"@ + decimal(s.line->0 as nat)
    } else {
        Seq::empty()
    })
}

/// The text of the symbols of a frame, in order.
pub open spec fn symbols_text(symbols: Seq<Symbol>) -> Seq<char>
    decreases symbols.len(),
{
    if symbols.len() == 0 {
        Seq::empty()
    } else {
        symbols_text(symbols.drop_last()) + symbol_text((symbols.len() - 1) as nat, symbols.last())
    }
}

/// The text of the frame at `index` of a short backtrace.
pub open spec fn frame_text(index: nat, f: Frame) -> Seq<char> {
    "\n"@ + right_aligned(decimal(index), 4) + ": "@ + (if f.symbols@.len() == 0 {
        "<no info>"@
    } else {
        symbols_text(f.symbols@)
    })
}

/// The text of the frames of a short backtrace, numbered from 0.
pub open spec fn frames_text(frames: Seq<Frame>) -> Seq<char>
    decreases frames.len(),
{
    if frames.len() == 0 {
        Seq::empty()
    } else {
        frames_text(frames.drop_last()) + frame_text((frames.len() - 1) as nat, frames.last())
    }
}

/// The first line of a panic report, with its line break.
pub open spec fn panic_header(thread_name: Seq<char>, message: Seq<char>, location: Seq<char>) -> Seq<char> {
    "thread '"@ + thread_name + "' panicked at '"@ + message + "', "@ + location + "\n"@
}

/// A location written as `file:line:column`.
pub open spec fn location_text(file: Seq<char>, line: u32, column: u32) -> Seq<char> {
    file + ":"@ + decimal(line as nat) + ":"@ + decimal(column as nat)
}

/// The location of a panic: source file, line and column.
#[derive(Debug, Clone)]
pub struct PanicLocation {
    file: String,
    line: u32,
    column: u32,
}

impl PanicLocation {
    /// The source file.
    pub closed spec fn spec_file(&self) -> Seq<char> {
        self.file@
    }

    /// The line.
    pub closed spec fn spec_line(&self) -> u32 {
        self.line
    }

    /// The column.
    pub closed spec fn spec_column(&self) -> u32 {
        self.column
    }

    /// The location written as `file:line:column`.
    pub open spec fn spec_text(&self) -> Seq<char> {
        location_text(self.spec_file(), self.spec_line(), self.spec_column())
    }

    /// Creates the location of a panic.
    pub fn new(file: String, line: u32, column: u32) -> (l: PanicLocation)
        ensures
            l.spec_file() == file@,
            l.spec_line() == line,
            l.spec_column() == column,
    {
        PanicLocation { file, line, column }
    }

    /// Returns the name of the source file from which the panic originated.
    pub fn file(&self) -> (f: &str)
        ensures
            f@ == self.spec_file(),
    {
        self.file.as_str()
    }

    /// Returns the line number from which the panic originated.
    pub fn line(&self) -> (l: u32)
        ensures
            l == self.spec_line(),
    {
        self.line
    }

    /// Returns the column from which the panic originated.
    pub fn column(&self) -> (c: u32)
        ensures
            c == self.spec_column(),
    {
        self.column
    }

    /// The location written as `file:line:column`.
    pub fn to_text(&self) -> (t: String)
        ensures
            t@ == self.spec_text(),
    {
        let mut t = self.file.clone();
        t.append(":");
        let line = decimal_text(self.line as u64);
        t.append(line.as_str());
        t.append(":");
        let column = decimal_text(self.column as u64);
        t.append(column.as_str());
        t
    }
}

/// The short report of a panic: its first line, then the frames of the
/// backtrace that concern the user's code, numbered from 0.
pub open spec fn short_text(thread_name: Seq<char>, message: Seq<char>, location: Seq<char>, frames: Seq<Frame>) -> Seq<char> {
    panic_header(thread_name, message, location) + "stack backtrace:"@ + frames_text(shown_frames(frames))
}

/// Whether a symbol is named as the runner's step execution.
pub open spec fn is_step_execution(s: Symbol) -> bool {
    s.name matches Some(n) && "cuke_runner::runtime::step_definition::StepDefinition::execute"@.is_prefix_of(n.full@)
}

/// Whether a frame has a symbol named as the runner's step execution.
pub open spec fn in_step_execution(f: Frame) -> bool {
    exists|j: int| 0 <= j < f.symbols@.len() && #[trigger] is_step_execution(f.symbols@[j])
}

/// Whether a frame belongs in a short backtrace.
fn is_reported(frame: &Frame) -> (r: bool)
    ensures
        r == is_reported_frame(*frame),
{
    if frame.ip_is_null {
        return false;
    }
    let mut j: usize = 0;
    while j < frame.symbols.len()
        invariant
            0 <= j <= frame.symbols@.len(),
            !frame.ip_is_null,
            forall|k: int| 0 <= k < j ==> !#[trigger] named_outside_backtrace(frame.symbols@[k]),
        decreases frame.symbols@.len() - j,
    {
        if let Some(name) = &frame.symbols[j].name {
            if !starts_with(name.full.as_str(), "backtrace::") {
                assert(named_outside_backtrace(frame.symbols@[j as int]));
                return true;
            }
        }
        j = j + 1;
    }
    false
}

/// Whether a frame lies above the entry point of a short backtrace.
fn is_above_start(frame: &Frame) -> (r: bool)
    ensures
        r == above_short_backtrace_start(*frame),
{
    let mut j: usize = 0;
    while j < frame.symbols.len()
        invariant
            0 <= j <= frame.symbols@.len(),
            forall|k: int| 0 <= k < j ==> !#[trigger] not_short_backtrace_start(frame.symbols@[k]),
        decreases frame.symbols@.len() - j,
    {
        let above = match &frame.symbols[j].name {
            Some(name) => !contains(name.full.as_str(), "__rust_begin_short_backtrace"),
            None => true,
        };
        if above {
            assert(not_short_backtrace_start(frame.symbols@[j as int]));
            return true;
        }
        j = j + 1;
    }
    false
}

/// Whether the file and line of a symbol are written.
fn writes_symbol_location(symbol: &Symbol) -> (r: bool)
    ensures
        r == writes_location(*symbol),
{
    match &symbol.name {
        None => true,
        Some(n) => {
            let full = n.full.as_str();
            let name: &str = if starts_with(full, "<") {
                proof {
                    reveal_strlit("<");
                }
                full.substring_char(1, full.unicode_len())
            } else {
                full
            };
            proof {
                reveal_strlit("<");
                assert(name@ == without_angle(n.full@));
            }
            !(starts_with(name, "std::") || starts_with(name, "__rust") || starts_with(name, "rust_begin_unwind")
                || starts_with(name, "core::") || starts_with(name, "alloc::") || starts_with(name, "cuke_runner"))
        },
    }
}

/// The text of the symbol at `index` of a frame.
fn write_symbol(index: usize, symbol: &Symbol) -> (t: String)
    ensures
        t@ == symbol_text(index as nat, *symbol),
{
    let mut t = if index != 0 {
        String::from_str("\n      ")
    } else {
        String::new()
    };
    match &symbol.name {
        Some(name) => t.append(name.short.as_str()),
        None => t.append("<unknown>"),
    }
    if writes_symbol_location(symbol) {
        match (&symbol.file, symbol.line) {
            (Some(file), Some(line)) => {
                t.append("\n             at ");
                t.append(file.as_str());
                t.append(":");
                let number = decimal_text(line as u64);
                t.append(number.as_str());
            },
            _ => {},
        }
    }
    t
}

/// The text of the symbols of a frame.
fn write_symbols(symbols: &Vec<Symbol>) -> (t: String)
    ensures
        t@ == symbols_text(symbols@),
{
    let mut t = String::new();
    let mut j: usize = 0;
    while j < symbols.len()
        invariant
            0 <= j <= symbols@.len(),
            t@ == symbols_text(symbols@.take(j as int)),
        decreases symbols@.len() - j,
    {
        let part = write_symbol(j, &symbols[j]);
        t.append(part.as_str());
        proof {
            let next = symbols@.take(j + 1);
            assert(next.drop_last() == symbols@.take(j as int));
            assert(next.last() == symbols@[j as int]);
        }
        j = j + 1;
    }
    proof {
        assert(symbols@.take(symbols@.len() as int) == symbols@);
    }
    t
}

/// The text of the frame at `index` of a short backtrace.
fn write_frame(index: usize, frame: &Frame) -> (t: String)
    ensures
        t@ == frame_text(index as nat, *frame),
{
    let mut t = String::from_str("\n");
    let number = right_align(decimal_text(index as u64), 4);
    t.append(number.as_str());
    t.append(": ");
    if frame.symbols.len() == 0 {
        t.append("<no info>");
    } else {
        let symbols = write_symbols(&frame.symbols);
        t.append(symbols.as_str());
    }
    t
}

/// The first line of a panic report, with its line break.
fn write_header(thread_name: &str, message: &str, location: &PanicLocation) -> (t: String)
    ensures
        t@ == panic_header(thread_name@, message@, location.spec_text()),
{
    let mut t = String::from_str("thread '");
    t.append(thread_name);
    t.append("' panicked at '");
    t.append(message);
    t.append("', ");
    let place = location.to_text();
    t.append(place.as_str());
    t.append("\n");
    t
}

/// The short report of a panic: its first line, then the frames of the
/// backtrace that belong in it, numbered from 0, up to the entry point of a
/// short backtrace.
pub fn short_report(thread_name: &str, message: &str, location: &PanicLocation, frames: &Vec<Frame>) -> (t: String)
    ensures
        t@ == short_text(thread_name@, message@, location.spec_text(), frames@),
{
    let mut t = write_header(thread_name, message, location);
    t.append("stack backtrace:");
    let ghost start = t@;
    let ghost mut shown: Seq<Frame> = Seq::empty();
    let mut count: usize = 0;
    let mut stopped = false;
    let mut i: usize = 0;
    proof {
        assert(frames@.skip(0) == frames@);
        assert(Seq::<Frame>::empty() + shown_frames(frames@) == shown_frames(frames@));
        assert(frames_text(shown) == Seq::<char>::empty());
        assert(t@ == start + frames_text(shown));
    }
    while i < frames.len() && !stopped
        invariant
            0 <= i <= frames@.len(),
            count == shown.len(),
            count <= i,
            shown_frames(frames@) == shown + (if stopped { Seq::empty() } else { shown_frames(frames@.skip(i as int)) }),
            t@ == start + frames_text(shown),
        decreases frames@.len() - i + (if stopped { 0int } else { 1int }),
    {
        let frame = &frames[i];
        proof {
            assert(frames@.skip(i as int)[0] == frames@[i as int]);
            assert(frames@.skip(i as int).drop_first() == frames@.skip(i + 1));
        }
        if is_reported(frame) {
            if is_above_start(frame) {
                let part = write_frame(count, frame);
                t.append(part.as_str());
                proof {
                    assert((shown.push(*frame)).drop_last() == shown);
                    assert(shown + (seq![*frame] + shown_frames(frames@.skip(i + 1))) == shown.push(*frame) + shown_frames(
                        frames@.skip(i + 1),
                    ));
                    shown = shown.push(*frame);
                }
                count = count + 1;
                i = i + 1;
            } else {
                stopped = true;
            }
        } else {
            i = i + 1;
        }
    }
    proof {
        if !stopped {
            assert(frames@.skip(i as int).len() == 0);
        }
        assert(shown + Seq::<Frame>::empty() == shown);
    }
    t
}

/// Whether any frame has a symbol named as the runner's step execution.
pub fn any_in_step_execution(frames: &Vec<Frame>) -> (r: bool)
    ensures
        r == exists|i: int| 0 <= i < frames@.len() && #[trigger] in_step_execution(frames@[i]),
{
    let mut i: usize = 0;
    while i < frames.len()
        invariant
            0 <= i <= frames@.len(),
            forall|k: int| 0 <= k < i ==> !#[trigger] in_step_execution(frames@[k]),
        decreases frames@.len() - i,
    {
        let frame = &frames[i];
        let mut j: usize = 0;
        while j < frame.symbols.len()
            invariant
                0 <= j <= frame.symbols@.len(),
                i < frames@.len(),
                *frame == frames@[i as int],
                forall|k: int| 0 <= k < j ==> !#[trigger] is_step_execution(frame.symbols@[k]),
            decreases frame.symbols@.len() - j,
        {
            if let Some(name) = &frame.symbols[j].name {
                if starts_with(name.full.as_str(), "cuke_runner::runtime::step_definition::StepDefinition::execute") {
                    assert(is_step_execution(frame.symbols@[j as int]));
                    assert(in_step_execution(frames@[i as int]));
                    return true;
                }
            }
            j = j + 1;
        }
        i = i + 1;
    }
    false
}

/// Information about a panic: the thread, the message, the location and the
/// captured backtrace, with its frames read as plain values.
#[derive(Debug)]
pub struct PanicInfo {
    thread_name: String,
    message: String,
    location: PanicLocation,
    frames: Vec<Frame>,
    backtrace: Backtrace,
}

impl PanicInfo {
    /// The name of the thread that panicked.
    pub closed spec fn spec_thread_name(&self) -> Seq<char> {
        self.thread_name@
    }

    /// The panic message.
    pub closed spec fn spec_message(&self) -> Seq<char> {
        self.message@
    }

    /// The location of the panic.
    pub closed spec fn spec_location(&self) -> PanicLocation {
        self.location
    }

    /// The frames of the backtrace.
    pub closed spec fn spec_frames(&self) -> Seq<Frame> {
        self.frames@
    }

    /// The captured backtrace.
    pub closed spec fn spec_backtrace(&self) -> Backtrace {
        self.backtrace
    }

    /// Records a panic with its backtrace, whose frames it reads.
    pub fn new(thread_name: String, message: String, location: PanicLocation, backtrace: Backtrace) -> (p: PanicInfo)
        ensures
            p.spec_thread_name() == thread_name@,
            p.spec_message() == message@,
            p.spec_location() == location,
            p.spec_backtrace() == backtrace,
            trace::frames_read(p.spec_frames(), trace::frames_in(backtrace)),
    {
        let frames = trace::frames_of(trace::backtrace_frames(&backtrace));
        PanicInfo { thread_name, message, location, frames, backtrace }
    }

    /// Returns the name of the thread from which the panic originated.
    pub fn thread_name(&self) -> (n: &str)
        ensures
            n@ == self.spec_thread_name(),
    {
        self.thread_name.as_str()
    }

    /// Returns the panic message.
    pub fn message(&self) -> (m: &str)
        ensures
            m@ == self.spec_message(),
    {
        self.message.as_str()
    }

    /// Returns the location from which the panic originated.
    pub fn location(&self) -> (l: &PanicLocation)
        ensures
            *l == self.spec_location(),
    {
        &self.location
    }

    /// Returns the frames of the backtrace.
    pub fn frames(&self) -> (f: &Vec<Frame>)
        ensures
            f@ == self.spec_frames(),
    {
        &self.frames
    }

    /// Returns the backtrace of this panic.
    pub fn backtrace(&self) -> (b: &Backtrace)
        ensures
            *b == self.spec_backtrace(),
    {
        &self.backtrace
    }

    /// The report of this panic with the full backtrace, as its `Debug`
    /// implementation writes it.
    pub fn full_display(&self) -> (t: String)
        ensures
            exists|trace: Seq<char>|
                t@ == panic_header(self.spec_thread_name(), self.spec_message(), self.spec_location().spec_text())
                    + trace,
    {
        let mut t = write_header(self.thread_name.as_str(), self.message.as_str(), &self.location);
        let ghost head = t@;
        let trace = trace::backtrace_debug_text(&self.backtrace);
        t.append(trace.as_str());
        assert(t@ == panic_header(self.spec_thread_name(), self.spec_message(), self.spec_location().spec_text())
            + trace@);
        t
    }

    /// The report of this panic with the backtrace shortened to the frames of
    /// the user's code.
    pub fn short_display(&self) -> (t: String)
        ensures
            t@ == short_text(self.spec_thread_name(), self.spec_message(), self.spec_location().spec_text(), self.spec_frames()),
    {
        short_report(self.thread_name.as_str(), self.message.as_str(), &self.location, &self.frames)
    }

    /// Whether the panic was raised inside the runner's step execution.
    pub fn raised_in_step_execution(&self) -> (r: bool)
        ensures
            r == exists|i: int| 0 <= i < self.spec_frames().len() && #[trigger] in_step_execution(self.spec_frames()[i]),
    {
        let r = any_in_step_execution(&self.frames);
        proof {
            if r {
                let i = choose|i: int| 0 <= i < self.frames@.len() && #[trigger] in_step_execution(self.frames@[i]);
                assert(in_step_execution(self.spec_frames()[i]));
            } else {
                assert forall|i: int| 0 <= i < self.spec_frames().len() implies !#[trigger] in_step_execution(
                    self.spec_frames()[i],
                ) by {
                    assert(self.spec_frames()[i] == self.frames@[i]);
                }
            }
        }
        r
    }
}

/// Whether a name is that of the standard library, the runtime or this
/// runner, whose file and line a short report leaves out.
pub open spec fn runtime_prefix(p: Seq<char>) -> bool {
    p == "std::"@ || p == "core::"@ || p == "alloc::"@ || p == "__rust"@ || p == "rust_begin_unwind"@
        || p == "cuke_runner"@
}

/// A symbol named in the standard library, the runtime or this runner, as
/// it is or written as a trait impl with one leading `<`, is written in a
/// short report by its short name alone, with no file and line, whatever
/// file and line it has; a symbol without a name, or named in none of them
/// and not written with `<`, is written with its file and line where both
/// are known.
pub proof fn lemma_runtime_symbols_have_no_location(index: nat, s: Symbol, rest: Seq<char>, p: Seq<char>)
    ensures
        (runtime_prefix(p) && p.is_prefix_of(rest) && s.name is Some && (s.name->0.full@ == rest || s.name->0.full@
            == "<"@ + rest)) ==> symbol_text(index, s) == (if index != 0 { "\n      "@ } else { Seq::empty() })
            + s.name->0.short@,
        (s.name is Some && !"<"@.is_prefix_of(s.name->0.full@) && (forall|q: Seq<char>| #[trigger] runtime_prefix(q)
            ==> !q.is_prefix_of(s.name->0.full@)) && s.file is Some && s.line is Some) ==> symbol_text(index, s) == (
        if index != 0 { "\n      "@ } else { Seq::empty() }) + s.name->0.short@ + "\n             at "@ + s.file->0@
            + ":"@ + decimal(s.line->0 as nat),
        (s.name is None && s.file is Some && s.line is Some) ==> symbol_text(index, s) == (if index != 0 {
            "\n      "@
        } else {
            Seq::empty()
        }) + "<unknown>"@ + "\n             at "@ + s.file->0@ + ":"@ + decimal(s.line->0 as nat),
{
    reveal_strlit("<");
    reveal_strlit("std::");
    reveal_strlit("core::");
    reveal_strlit("alloc::");
    reveal_strlit("__rust");
    reveal_strlit("rust_begin_unwind");
    reveal_strlit("cuke_runner");
    if runtime_prefix(p) && p.is_prefix_of(rest) && s.name is Some && (s.name->0.full@ == rest || s.name->0.full@
        == "<"@ + rest) {
        let full = s.name->0.full@;
        assert(p.len() > 0 && p[0] != '<');
        assert(rest[0] == p[0]);
        if full == "<"@ + rest {
            assert(full.skip(1) == rest);
            assert("<"@.is_prefix_of(full));
            assert(without_angle(full) == rest);
        } else {
            assert(!"<"@.is_prefix_of(full));
            assert(without_angle(full) == rest);
        }
        assert(!writes_location(s));
    }
    if s.name is Some && !"<"@.is_prefix_of(s.name->0.full@) && (forall|q: Seq<char>| #[trigger] runtime_prefix(q)
        ==> !q.is_prefix_of(s.name->0.full@)) {
        assert(runtime_prefix("std::"@));
        assert(runtime_prefix("core::"@));
        assert(runtime_prefix("alloc::"@));
        assert(runtime_prefix("__rust"@));
        assert(runtime_prefix("rust_begin_unwind"@));
        assert(runtime_prefix("cuke_runner"@));
        assert(writes_location(s));
    }
}

/// Whether a symbol has a name, and one that does not start with
/// `backtrace::`.
pub open spec fn symbol_outside_backtrace(s: Symbol) -> bool {
    s.name is Some && !"backtrace::"@.is_prefix_of(s.name->0.full@)
}

/// Whether a symbol has a name, and one that holds
/// `__rust_begin_short_backtrace`.
pub open spec fn symbol_at_entry(s: Symbol) -> bool {
    s.name is Some && occurs_in("__rust_begin_short_backtrace"@, s.name->0.full@)
}

/// Whether a frame is one that a short backtrace can show: its instruction
/// pointer is not null, one of its symbols has a name outside the
/// `backtrace` crate, and one of its symbols is not the entry point of a
/// short backtrace.
pub open spec fn showable(f: Frame) -> bool {
    &&& !f.ip_is_null
    &&& exists|j: int| 0 <= j < f.symbols@.len() && #[trigger] symbol_outside_backtrace(f.symbols@[j])
    &&& exists|j: int| 0 <= j < f.symbols@.len() && !#[trigger] symbol_at_entry(f.symbols@[j])
}

proof fn lemma_showable_is_shown(f: Frame)
    ensures
        showable(f) == (is_reported_frame(f) && above_short_backtrace_start(f)),
        is_reported_frame(f) == (!f.ip_is_null && exists|j: int| 0 <= j < f.symbols@.len() && #[trigger] symbol_outside_backtrace(f.symbols@[j])),
        above_short_backtrace_start(f) == exists|j: int| 0 <= j < f.symbols@.len() && !#[trigger] symbol_at_entry(f.symbols@[j]),
{
    if exists|j: int| 0 <= j < f.symbols@.len() && #[trigger] symbol_outside_backtrace(f.symbols@[j]) {
        let j = choose|j: int| 0 <= j < f.symbols@.len() && #[trigger] symbol_outside_backtrace(f.symbols@[j]);
        assert(named_outside_backtrace(f.symbols@[j]));
    }
    if exists|j: int| 0 <= j < f.symbols@.len() && !#[trigger] symbol_at_entry(f.symbols@[j]) {
        let k = choose|j: int| 0 <= j < f.symbols@.len() && !#[trigger] symbol_at_entry(f.symbols@[j]);
        assert(not_short_backtrace_start(f.symbols@[k]));
    }
    if is_reported_frame(f) {
        let j = choose|j: int| 0 <= j < f.symbols@.len() && #[trigger] named_outside_backtrace(f.symbols@[j]);
        assert(symbol_outside_backtrace(f.symbols@[j]));
    }
    if above_short_backtrace_start(f) {
        let k = choose|j: int| 0 <= j < f.symbols@.len() && #[trigger] not_short_backtrace_start(f.symbols@[j]);
        assert(!symbol_at_entry(f.symbols@[k]));
    }
}

/// The frames of a short backtrace: every frame shown is showable; frames
/// that are all showable are all shown, in order; a frame whose instruction
/// pointer is null, or none of whose symbols is named outside the
/// `backtrace` crate, is passed over as if it were not there; and the first
/// other frame all of whose symbols are named as the entry point of a short
/// backtrace ends it, nothing from it on being shown.
pub proof fn lemma_shown_frames(frames: Seq<Frame>, i: int)
    ensures
        forall|j: int| 0 <= j < shown_frames(frames).len() ==> showable(#[trigger] shown_frames(frames)[j]),
        (forall|j: int| 0 <= j < frames.len() ==> showable(#[trigger] frames[j])) ==> shown_frames(frames) == frames,
        (0 <= i < frames.len() && (frames[i].ip_is_null || forall|j: int|
            0 <= j < frames[i].symbols@.len() ==> !#[trigger] symbol_outside_backtrace(frames[i].symbols@[j])))
            ==> shown_frames(frames) == shown_frames(frames.remove(i)),
        (0 <= i < frames.len() && !frames[i].ip_is_null && (exists|j: int|
            0 <= j < frames[i].symbols@.len() && #[trigger] symbol_outside_backtrace(frames[i].symbols@[j])) && (forall|j: int|
            0 <= j < frames[i].symbols@.len() ==> #[trigger] symbol_at_entry(frames[i].symbols@[j])))
            ==> shown_frames(frames) == shown_frames(frames.take(i)),
    decreases frames.len(),
{
    if frames.len() > 0 {
        let rest = frames.drop_first();
        lemma_shown_frames(rest, i - 1);
        lemma_showable_is_shown(frames[0]);
        assert forall|j: int| 0 <= j < shown_frames(frames).len() implies showable(#[trigger] shown_frames(frames)[j]) by {
            if is_reported_frame(frames[0]) && above_short_backtrace_start(frames[0]) {
                if j > 0 {
                    assert(shown_frames(frames)[j] == shown_frames(rest)[j - 1]);
                }
            }
        }
        if forall|j: int| 0 <= j < frames.len() ==> showable(#[trigger] frames[j]) {
            assert forall|j: int| 0 <= j < rest.len() implies showable(#[trigger] rest[j]) by {
                assert(rest[j] == frames[j + 1]);
            }
            assert(showable(frames[0]));
            assert(seq![frames[0]] + rest == frames);
        }
        if 0 <= i < frames.len() {
            let f = frames[i];
            lemma_showable_is_shown(f);
            if f.ip_is_null || forall|j: int| 0 <= j < f.symbols@.len() ==> !#[trigger] symbol_outside_backtrace(f.symbols@[j]) {
                assert(!is_reported_frame(f));
                if i == 0 {
                    assert(frames.remove(0) == rest);
                } else {
                    assert(frames.remove(i).drop_first() == rest.remove(i - 1));
                    assert(frames.remove(i)[0] == frames[0]);
                }
            }
            if !f.ip_is_null && (exists|j: int| 0 <= j < f.symbols@.len() && #[trigger] symbol_outside_backtrace(f.symbols@[j]))
                && (forall|j: int| 0 <= j < f.symbols@.len() ==> #[trigger] symbol_at_entry(f.symbols@[j])) {
                assert(is_reported_frame(f));
                assert(!above_short_backtrace_start(f));
                if i == 0 {
                    assert(frames.take(0).len() == 0);
                } else {
                    assert(frames.take(i).drop_first() == rest.take(i - 1));
                    assert(frames.take(i)[0] == frames[0]);
                }
            }
        }
    }
}

} // verus!
