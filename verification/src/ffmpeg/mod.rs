//! Building FFmpeg command lines and describing ffprobe results.
pub mod command;
pub mod probe;

pub use command::FfmpegCommand;

use vstd::prelude::*;
use crate::textutil::{push_char, quote_escaped};

verus! {

/// Escapes a string for use inside a single-quoted FFmpeg filter argument: every
/// single quote becomes `'\''`, every other character is kept.
pub fn escape_filter_arg(arg: &str) -> (r: String)
    ensures
        r@ == quote_escaped(arg@),
{
    let n = arg.unicode_len();
    let mut r = String::new();
    let mut i: usize = 0;
    while i < n
        invariant
            n == arg@.len(),
            0 <= i <= n,
            r@ == quote_escaped(arg@.take(i as int)),
        decreases n - i,
    {
        let c = arg.get_char(i);
        if c == '\'' {
            push_char(&mut r, '\'');
            push_char(&mut r, '\\');
            push_char(&mut r, '\'');
            push_char(&mut r, '\'');
        } else {
            push_char(&mut r, c);
        }
        assert(arg@.take(i + 1).drop_last() =~= arg@.take(i as int));
        assert(r@ =~= quote_escaped(arg@.take(i + 1)));
        i = i + 1;
    }
    assert(arg@.take(n as int) =~= arg@);
    r
}

} // verus!
