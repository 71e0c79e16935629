//! Builders for the outbound command grammar, one line per command.
//! Each builder returns the exact command text; the caller appends the
//! newline terminator when the line is written to the engine's input.

use vstd::prelude::*;
use vstd::string::*;

use crate::text::dec_rep;
use crate::text::u64_to_dec;

verus! {

/// The position-setup command for an arbitrary base position given in
/// FEN notation, followed by a move list.
pub fn position_fen_command(start: &str, moves: &str) -> (r: String)
    ensures
        r@ == "position fen "@ + start@ + " moves "@ + moves@,
{
    let mut s = String::from_str("position fen ");
    s.append(start);
    s.append(" moves ");
    s.append(moves);
    s
}

/// The position-setup command for the standard starting position,
/// followed by a move list.
pub fn position_startpos_command(moves: &str) -> (r: String)
    ensures
        r@ == "position startpos moves "@ + moves@,
{
    let mut s = String::from_str("position startpos moves ");
    s.append(moves);
    s
}

/// The option-assignment command for a named engine option.
pub fn set_option_command(name: &str, value: &str) -> (r: String)
    ensures
        r@ == "setoption name "@ + name@ + " value "@ + value@,
{
    let mut s = String::from_str("setoption name ");
    s.append(name);
    s.append(" value ");
    s.append(value);
    s
}

/// The search-start command bounded by a node count.
pub fn go_nodes_command(nodes: u64) -> (r: String)
    ensures
        r@ == "go nodes "@ + dec_rep(nodes as nat),
{
    let mut s = String::from_str("go nodes ");
    let digits = u64_to_dec(nodes);
    s.append(digits.as_str());
    s
}

} // verus!
