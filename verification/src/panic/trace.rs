//! Reading a captured `backtrace::Backtrace` into plain frames.

use vstd::prelude::*;

use backtrace::{Backtrace, BacktraceFrame, BacktraceSymbol};

use super::{Frame, Symbol, SymbolName};

verus! {

/// Declares `backtrace::Backtrace`, a captured stack.
#[verifier::external_type_specification]
#[verifier::external_body]
pub struct ExBacktrace(Backtrace);

/// Declares `backtrace::BacktraceFrame`, one frame of a captured stack.
#[verifier::external_type_specification]
#[verifier::external_body]
pub struct ExBacktraceFrame(BacktraceFrame);

/// Declares `backtrace::BacktraceSymbol`, a symbol resolved for a frame.
#[verifier::external_type_specification]
#[verifier::external_body]
pub struct ExBacktraceSymbol(BacktraceSymbol);

/// The frames that a captured backtrace holds, as `Backtrace::frames` gives
/// them.
pub uninterp spec fn frames_in(backtrace: Backtrace) -> Seq<BacktraceFrame>;

/// Whether a frame's instruction pointer, as `BacktraceFrame::ip` gives it,
/// is null.
pub uninterp spec fn ip_is_null_in(frame: BacktraceFrame) -> bool;

/// The symbols that a frame holds, as `BacktraceFrame::symbols` gives them.
pub uninterp spec fn symbols_in(frame: BacktraceFrame) -> Seq<BacktraceSymbol>;

/// A symbol's name as `BacktraceSymbol::name` gives it, written in full and
/// in the alternate form.
pub uninterp spec fn name_in(symbol: BacktraceSymbol) -> Option<(Seq<char>, Seq<char>)>;

/// A symbol's file as `BacktraceSymbol::filename` gives it, written with
/// `Path::display`.
pub uninterp spec fn file_in(symbol: BacktraceSymbol) -> Option<Seq<char>>;

/// A symbol's line as `BacktraceSymbol::lineno` gives it.
pub uninterp spec fn line_in(symbol: BacktraceSymbol) -> Option<u32>;

/// Trusted: calls `Backtrace::frames`, which hands out the frames that the
/// backtrace holds; the contract names them as a function of the backtrace.
/// What the frames are depends on the machine that captured them.
#[verifier::external_body]
pub(crate) fn backtrace_frames(backtrace: &Backtrace) -> (frames: &[BacktraceFrame])
    ensures
        frames@ == frames_in(*backtrace),
{
    backtrace.frames()
}

/// Trusted: tests whether `BacktraceFrame::ip`, which reads the frame's
/// instruction pointer, is the null pointer; the contract names the outcome
/// as a function of the frame.
#[verifier::external_body]
fn frame_ip_is_null(frame: &BacktraceFrame) -> (null: bool)
    ensures
        null == ip_is_null_in(*frame),
{
    frame.ip().is_null()
}

/// Trusted: calls `BacktraceFrame::symbols`, which hands out the symbols that
/// the frame holds; the contract names them as a function of the frame.
#[verifier::external_body]
fn frame_symbols(frame: &BacktraceFrame) -> (symbols: &[BacktraceSymbol])
    ensures
        symbols@ == symbols_in(*frame),
{
    frame.symbols()
}

/// Trusted: calls `BacktraceSymbol::name` and writes the name with
/// `to_string` and with the alternate `{:#}` form; the contract names both
/// as a function of the symbol.
#[verifier::external_body]
fn symbol_name(symbol: &BacktraceSymbol) -> (name: Option<SymbolName>)
    ensures
        match name {
            Some(n) => name_in(*symbol) == Some((n.full@, n.short@)),
            None => name_in(*symbol) is None,
        },
{
    match symbol.name() {
        Some(name) => Some(SymbolName { full: name.to_string(), short: format!("{:#}", name) }),
        None => None,
    }
}

/// Trusted: calls `BacktraceSymbol::filename` and writes the path with
/// `Path::display`; the contract names the text as a function of the symbol.
#[verifier::external_body]
fn symbol_file(symbol: &BacktraceSymbol) -> (file: Option<String>)
    ensures
        match file {
            Some(f) => file_in(*symbol) == Some(f@),
            None => file_in(*symbol) is None,
        },
{
    symbol.filename().map(|path| path.display().to_string())
}

/// Trusted: calls `BacktraceSymbol::lineno`; the contract names the line as a
/// function of the symbol.
#[verifier::external_body]
fn symbol_line(symbol: &BacktraceSymbol) -> (line: Option<u32>)
    ensures
        line == line_in(*symbol),
{
    symbol.lineno()
}

/// Whether a plain symbol holds what a resolved symbol gives.
pub open spec fn symbol_read(plain: Symbol, raw: BacktraceSymbol) -> bool {
    &&& match plain.name {
        Some(n) => name_in(raw) == Some((n.full@, n.short@)),
        None => name_in(raw) is None,
    }
    &&& match plain.file {
        Some(f) => file_in(raw) == Some(f@),
        None => file_in(raw) is None,
    }
    &&& plain.line == line_in(raw)
}

/// Whether a plain frame holds what a captured frame gives: whether its
/// instruction pointer is null, and each of its symbols in order.
pub open spec fn frame_read(plain: Frame, raw: BacktraceFrame) -> bool {
    &&& plain.ip_is_null == ip_is_null_in(raw)
    &&& plain.symbols@.len() == symbols_in(raw).len()
    &&& forall|j: int| 0 <= j < plain.symbols@.len() ==> symbol_read(#[trigger] plain.symbols@[j], symbols_in(raw)[j])
}

/// Whether plain frames hold what captured frames give, one for each and in
/// the same order.
pub open spec fn frames_read(plain: Seq<Frame>, raw: Seq<BacktraceFrame>) -> bool {
    &&& plain.len() == raw.len()
    &&& forall|i: int| 0 <= i < plain.len() ==> frame_read(#[trigger] plain[i], raw[i])
}

/// Trusted: writes a backtrace with its `Debug` implementation, which depends
/// on the machine and the working directory; nothing is stated of the text.
#[verifier::external_body]
pub(crate) fn backtrace_debug_text(backtrace: &Backtrace) -> (text: String) {
    format!("{:?}", backtrace)
}

/// Captured frames as plain values, one for each and in the same order, each
/// with one symbol for each of the frame's symbols.
pub(crate) fn frames_of(raw: &[BacktraceFrame]) -> (frames: Vec<Frame>)
    ensures
        frames_read(frames@, raw@),
{
    let mut frames: Vec<Frame> = Vec::new();
    let mut i: usize = 0;
    while i < raw.len()
        invariant
            0 <= i <= raw@.len(),
            frames@.len() == i,
            forall|k: int| 0 <= k < i ==> frame_read(#[trigger] frames@[k], raw@[k]),
        decreases raw@.len() - i,
    {
        let frame = &raw[i];
        let symbols = plain_symbols(frame_symbols(frame));
        frames.push(Frame { ip_is_null: frame_ip_is_null(frame), symbols });
        i = i + 1;
    }
    frames
}

/// Resolved symbols as plain values, one for each and in the same order.
fn plain_symbols(raw: &[BacktraceSymbol]) -> (symbols: Vec<Symbol>)
    ensures
        symbols@.len() == raw@.len(),
        forall|j: int| 0 <= j < symbols@.len() ==> symbol_read(#[trigger] symbols@[j], raw@[j]),
{
    let mut symbols: Vec<Symbol> = Vec::new();
    let mut j: usize = 0;
    while j < raw.len()
        invariant
            0 <= j <= raw@.len(),
            symbols@.len() == j,
            forall|k: int| 0 <= k < j ==> symbol_read(#[trigger] symbols@[k], raw@[k]),
        decreases raw@.len() - j,
    {
        let symbol = &raw[j];
        symbols.push(Symbol { name: symbol_name(symbol), file: symbol_file(symbol), line: symbol_line(symbol) });
        j = j + 1;
    }
    symbols
}

} // verus!
