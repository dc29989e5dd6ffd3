//! The output vocabulary of the style engines.
//!
//! Every engine realizes the same operation set; they differ only in literal
//! tokens (separators, brackets, colons), in whether elements sit on their
//! own indented lines, and in how a container is closed. This module gives
//! each style's tokens a mathematical form, states what byte text each kind
//! of step prepends or appends, and proves the empty-container law: closing
//! a container that received no elements always completes the style's fixed
//! empty literal, never an open-newline-close shape.

use vstd::prelude::*;
use vstd::utf8::encode_utf8;
use crate::context::{OutputType, indent_text, top_count};
use crate::escape::quote_text;
use crate::sink::push_all;

verus! {

/// The structural convention an engine realizes.
#[derive(Debug, Copy, Clone, PartialEq, Eq, Structural)]
pub enum StyleKind {
    /// `,` and `:`, no whitespace at all.
    Compact,
    /// `, ` and `: `, a single spaced line.
    Linear,
    /// `,` plus newline plus cached indentation; closing brackets on their
    /// own line at the parent's indentation.
    Knr,
    /// Brackets with surrounding spaces, `, ` and `: `, no newlines.
    Allman,
    /// Brackets with surrounding spaces, `, ` and a compact `:`, no newlines.
    Whitesmith,
    /// No brackets: every entry on its own indented line, list elements
    /// behind a dash.
    Yaml,
}

/// The byte of an ASCII character.
pub open spec fn b(c: char) -> u8 {
    c as u8
}

/// The token `null`.
pub open spec fn null_tok() -> Seq<u8> {
    seq![b('n'), b('u'), b('l'), b('l')]
}

/// The token `true`.
pub open spec fn true_tok() -> Seq<u8> {
    seq![b('t'), b('r'), b('u'), b('e')]
}

/// The token `false`.
pub open spec fn false_tok() -> Seq<u8> {
    seq![b('f'), b('a'), b('l'), b('s'), b('e')]
}

/// The line terminator.
pub open spec fn crlf() -> Seq<u8> {
    seq![13u8, 10u8]
}

/// The list-entry marker of the block style.
pub open spec fn dash_tok() -> Seq<u8> {
    seq![b('-'), b(' ')]
}

/// The element separator of a style.
pub open spec fn sep_tok(s: StyleKind) -> Seq<u8> {
    match s {
        StyleKind::Compact => seq![b(',')],
        StyleKind::Knr => seq![b(',')],
        StyleKind::Linear => seq![b(','), b(' ')],
        StyleKind::Allman => seq![b(','), b(' ')],
        StyleKind::Whitesmith => seq![b(','), b(' ')],
        StyleKind::Yaml => Seq::empty(),
    }
}

/// The key/value separator of a style.
pub open spec fn colon_tok(s: StyleKind) -> Seq<u8> {
    match s {
        StyleKind::Compact => seq![b(':')],
        StyleKind::Whitesmith => seq![b(':')],
        StyleKind::Linear => seq![b(':'), b(' ')],
        StyleKind::Allman => seq![b(':'), b(' ')],
        StyleKind::Knr => seq![b(':'), b(' ')],
        StyleKind::Yaml => seq![b(':'), b(' ')],
    }
}

/// The opening-bracket token of a list.
pub open spec fn list_open_tok(s: StyleKind) -> Seq<u8> {
    match s {
        StyleKind::Compact => seq![b('[')],
        StyleKind::Linear => seq![b('[')],
        StyleKind::Knr => seq![b('[')],
        StyleKind::Allman => seq![b('['), b(' ')],
        StyleKind::Whitesmith => seq![b('['), b(' ')],
        StyleKind::Yaml => Seq::empty(),
    }
}

/// The closing-bracket token of a non-empty list (the newline and
/// indentation around it are separate; see [`list_close_text`]).
pub open spec fn list_close_tok(s: StyleKind) -> Seq<u8> {
    match s {
        StyleKind::Compact => seq![b(']')],
        StyleKind::Linear => seq![b(']')],
        StyleKind::Knr => seq![b(']')],
        StyleKind::Allman => seq![b(' '), b(']')],
        StyleKind::Whitesmith => seq![b(' '), b(']')],
        StyleKind::Yaml => Seq::empty(),
    }
}

/// The fixed literal an empty list serializes to.
pub open spec fn list_empty_literal(s: StyleKind) -> Seq<u8> {
    match s {
        StyleKind::Compact => seq![b('['), b(']')],
        StyleKind::Linear => seq![b('['), b(']')],
        StyleKind::Knr => seq![b('['), b(' '), b(']')],
        StyleKind::Allman => seq![b('['), b(' '), b(']')],
        StyleKind::Whitesmith => seq![b('['), b(' '), b(']')],
        StyleKind::Yaml => seq![b('['), b(']')],
    }
}

/// What a close writes for a list that stayed empty: exactly the part of the
/// empty literal that the open did not already write.
pub open spec fn list_empty_close_tok(s: StyleKind) -> Seq<u8> {
    match s {
        StyleKind::Compact => seq![b(']')],
        StyleKind::Linear => seq![b(']')],
        StyleKind::Knr => seq![b(' '), b(']')],
        StyleKind::Allman => seq![b(']')],
        StyleKind::Whitesmith => seq![b(']')],
        StyleKind::Yaml => seq![b('['), b(']')],
    }
}

/// The opening-bracket token of a hash.
pub open spec fn hash_open_tok(s: StyleKind) -> Seq<u8> {
    match s {
        StyleKind::Compact => seq![b('{')],
        StyleKind::Linear => seq![b('{')],
        StyleKind::Knr => seq![b('{')],
        StyleKind::Allman => seq![b('{'), b(' ')],
        StyleKind::Whitesmith => seq![b('{'), b(' ')],
        StyleKind::Yaml => Seq::empty(),
    }
}

/// The closing-bracket token of a non-empty hash.
pub open spec fn hash_close_tok(s: StyleKind) -> Seq<u8> {
    match s {
        StyleKind::Compact => seq![b('}')],
        StyleKind::Linear => seq![b('}')],
        StyleKind::Knr => seq![b('}')],
        StyleKind::Allman => seq![b(' '), b('}')],
        StyleKind::Whitesmith => seq![b(' '), b('}')],
        StyleKind::Yaml => Seq::empty(),
    }
}

/// The fixed literal an empty hash serializes to.
pub open spec fn hash_empty_literal(s: StyleKind) -> Seq<u8> {
    match s {
        StyleKind::Compact => seq![b('{'), b('}')],
        StyleKind::Linear => seq![b('{'), b('}')],
        StyleKind::Knr => seq![b('{'), b(' '), b('}')],
        StyleKind::Allman => seq![b('{'), b(' '), b('}')],
        StyleKind::Whitesmith => seq![b('{'), b(' '), b('}')],
        StyleKind::Yaml => seq![b('{'), b('}')],
    }
}

/// What a close writes for a hash that stayed empty.
pub open spec fn hash_empty_close_tok(s: StyleKind) -> Seq<u8> {
    match s {
        StyleKind::Compact => seq![b('}')],
        StyleKind::Linear => seq![b('}')],
        StyleKind::Knr => seq![b(' '), b('}')],
        StyleKind::Allman => seq![b('}')],
        StyleKind::Whitesmith => seq![b('}')],
        StyleKind::Yaml => seq![b('{'), b('}')],
    }
}

/// What a style writes before a list element, given the open frames, their
/// counts and the indent unit: a separator unless the element is the first
/// of its container; for the newline styles also the line break, the
/// element's indentation, and (block style) the dash.
pub open spec fn list_entry_prefix(
    s: StyleKind,
    kinds: Seq<OutputType>,
    counts: Seq<usize>,
    unit: Seq<u8>,
) -> Seq<u8> {
    let first = top_count(counts) == 0;
    let level = kinds.len() as int;
    match s {
        StyleKind::Knr => (if first {
            Seq::empty()
        } else {
            sep_tok(s)
        }) + crlf() + indent_text(unit, level),
        StyleKind::Yaml => (if first && level <= 1 {
            Seq::empty()
        } else {
            crlf() + indent_text(unit, level - 1)
        }) + dash_tok(),
        _ => if first {
            Seq::empty()
        } else {
            sep_tok(s)
        },
    }
}

/// What a style writes before a hash entry's key, by the same rules as
/// [`list_entry_prefix`] (without the dash).
pub open spec fn hash_entry_prefix(
    s: StyleKind,
    kinds: Seq<OutputType>,
    counts: Seq<usize>,
    unit: Seq<u8>,
) -> Seq<u8> {
    let first = top_count(counts) == 0;
    let level = kinds.len() as int;
    match s {
        StyleKind::Knr => (if first {
            Seq::empty()
        } else {
            sep_tok(s)
        }) + crlf() + indent_text(unit, level),
        StyleKind::Yaml => if first && level <= 1 {
            Seq::empty()
        } else {
            crlf() + indent_text(unit, level - 1)
        },
        _ => if first {
            Seq::empty()
        } else {
            sep_tok(s)
        },
    }
}

/// What a style writes before a nested container's opening bracket: a list
/// element's prefix when the enclosing frame is a list (inside a hash the
/// entry's key has already been written by `hash_begin_next`).
pub open spec fn container_open_prefix(
    s: StyleKind,
    kinds: Seq<OutputType>,
    counts: Seq<usize>,
    unit: Seq<u8>,
) -> Seq<u8> {
    if kinds.len() > 0 && kinds.last() == OutputType::ListType {
        list_entry_prefix(s, kinds, counts, unit)
    } else {
        Seq::empty()
    }
}

/// The quoted key and the style's colon, as bytes.
pub open spec fn hash_key_bytes(s: StyleKind, key: Seq<char>) -> Seq<u8> {
    encode_utf8(quote_text(key)) + colon_tok(s)
}

/// What a close writes after a list at the given depth whose element count
/// is `count`: the empty completion for an empty list, otherwise the closing
/// token, for the brace-on-own-line style behind a line break at the parent
/// depth's indentation.
pub open spec fn list_close_text(s: StyleKind, unit: Seq<u8>, level: int, count: nat) -> Seq<u8> {
    if count == 0 {
        list_empty_close_tok(s)
    } else {
        match s {
            StyleKind::Knr => crlf() + indent_text(unit, level - 1) + list_close_tok(s),
            _ => list_close_tok(s),
        }
    }
}

/// What a close writes after a hash; see [`list_close_text`].
pub open spec fn hash_close_text(s: StyleKind, unit: Seq<u8>, level: int, count: nat) -> Seq<u8> {
    if count == 0 {
        hash_empty_close_tok(s)
    } else {
        match s {
            StyleKind::Knr => crlf() + indent_text(unit, level - 1) + hash_close_tok(s),
            _ => hash_close_tok(s),
        }
    }
}

/// Empty-container short-circuit: for every style, at every depth and with
/// every indent unit, opening a container and closing it with zero elements
/// writes exactly the style's fixed empty literal — in particular, never a
/// newline between the brackets.
pub proof fn lemma_empty_container_literal(s: StyleKind, unit: Seq<u8>, level: int)
    ensures
        list_open_tok(s) + list_close_text(s, unit, level, 0) == list_empty_literal(s),
        hash_open_tok(s) + hash_close_text(s, unit, level, 0) == hash_empty_literal(s),
{
    assert(list_open_tok(s) + list_empty_close_tok(s) =~= list_empty_literal(s));
    assert(hash_open_tok(s) + hash_empty_close_tok(s) =~= hash_empty_literal(s));
}

/// Builds the token vector for a token spec; see each spec function.
pub fn null_tok_v() -> (r: Vec<u8>)
    ensures
        r@ == null_tok(),
{
    let mut v: Vec<u8> = Vec::new();
    v.push('n' as u8);
    v.push('u' as u8);
    v.push('l' as u8);
    v.push('l' as u8);
    proof {
        assert(v@ =~= null_tok());
    }
    v
}

/// The `true` or `false` token for a boolean value.
pub fn bool_tok_v(value: bool) -> (r: Vec<u8>)
    ensures
        r@ == if value {
            true_tok()
        } else {
            false_tok()
        },
{
    let mut v: Vec<u8> = Vec::new();
    if value {
        v.push('t' as u8);
        v.push('r' as u8);
        v.push('u' as u8);
        v.push('e' as u8);
        proof {
            assert(v@ =~= true_tok());
        }
    } else {
        v.push('f' as u8);
        v.push('a' as u8);
        v.push('l' as u8);
        v.push('s' as u8);
        v.push('e' as u8);
        proof {
            assert(v@ =~= false_tok());
        }
    }
    v
}

/// Appends the line terminator.
pub fn push_crlf(buf: &mut Vec<u8>)
    ensures
        final(buf)@ == old(buf)@ + crlf(),
{
    buf.push(13);
    buf.push(10);
    proof {
        assert(final(buf)@ =~= old(buf)@ + crlf());
    }
}

/// Appends the dash marker of the block style.
pub fn push_dash(buf: &mut Vec<u8>)
    ensures
        final(buf)@ == old(buf)@ + dash_tok(),
{
    buf.push('-' as u8);
    buf.push(' ' as u8);
    proof {
        assert(final(buf)@ =~= old(buf)@ + dash_tok());
    }
}

/// Appends a style's element separator.
pub fn push_sep(buf: &mut Vec<u8>, s: StyleKind)
    ensures
        final(buf)@ == old(buf)@ + sep_tok(s),
{
    match s {
        StyleKind::Compact | StyleKind::Knr => {
            buf.push(',' as u8);
        },
        StyleKind::Linear | StyleKind::Allman | StyleKind::Whitesmith => {
            buf.push(',' as u8);
            buf.push(' ' as u8);
        },
        StyleKind::Yaml => {},
    }
    proof {
        assert(final(buf)@ =~= old(buf)@ + sep_tok(s));
    }
}

/// Appends a style's key/value separator.
pub fn push_colon(buf: &mut Vec<u8>, s: StyleKind)
    ensures
        final(buf)@ == old(buf)@ + colon_tok(s),
{
    match s {
        StyleKind::Compact | StyleKind::Whitesmith => {
            buf.push(':' as u8);
        },
        _ => {
            buf.push(':' as u8);
            buf.push(' ' as u8);
        },
    }
    proof {
        assert(final(buf)@ =~= old(buf)@ + colon_tok(s));
    }
}

/// Appends a bracket-like token given by its one or two characters.
fn push_chars(buf: &mut Vec<u8>, first: Option<u8>, second: Option<u8>)
    ensures
        final(buf)@ == old(buf)@ + (match first {
            Some(x) => seq![x],
            None => Seq::<u8>::empty(),
        }) + (match second {
            Some(y) => seq![y],
            None => Seq::<u8>::empty(),
        }),
{
    match first {
        Some(x) => {
            buf.push(x);
        },
        None => {},
    }
    match second {
        Some(y) => {
            buf.push(y);
        },
        None => {},
    }
    proof {
        assert(final(buf)@ =~= old(buf)@ + (match first {
            Some(x) => seq![x],
            None => Seq::<u8>::empty(),
        }) + (match second {
            Some(y) => seq![y],
            None => Seq::<u8>::empty(),
        }));
    }
}

/// Appends a style's list-opening token.
pub fn push_list_open(buf: &mut Vec<u8>, s: StyleKind)
    ensures
        final(buf)@ == old(buf)@ + list_open_tok(s),
{
    match s {
        StyleKind::Compact | StyleKind::Linear | StyleKind::Knr => push_chars(
            buf,
            Some('[' as u8),
            None,
        ),
        StyleKind::Allman | StyleKind::Whitesmith => push_chars(
            buf,
            Some('[' as u8),
            Some(' ' as u8),
        ),
        StyleKind::Yaml => push_chars(buf, None, None),
    }
    proof {
        assert(final(buf)@ =~= old(buf)@ + list_open_tok(s));
    }
}

/// Appends a style's hash-opening token.
pub fn push_hash_open(buf: &mut Vec<u8>, s: StyleKind)
    ensures
        final(buf)@ == old(buf)@ + hash_open_tok(s),
{
    match s {
        StyleKind::Compact | StyleKind::Linear | StyleKind::Knr => push_chars(
            buf,
            Some('{' as u8),
            None,
        ),
        StyleKind::Allman | StyleKind::Whitesmith => push_chars(
            buf,
            Some('{' as u8),
            Some(' ' as u8),
        ),
        StyleKind::Yaml => push_chars(buf, None, None),
    }
    proof {
        assert(final(buf)@ =~= old(buf)@ + hash_open_tok(s));
    }
}

/// Appends a style's list-closing token (the non-empty case, without the
/// newline part).
pub fn push_list_close(buf: &mut Vec<u8>, s: StyleKind)
    ensures
        final(buf)@ == old(buf)@ + list_close_tok(s),
{
    match s {
        StyleKind::Compact | StyleKind::Linear | StyleKind::Knr => push_chars(
            buf,
            Some(']' as u8),
            None,
        ),
        StyleKind::Allman | StyleKind::Whitesmith => push_chars(
            buf,
            Some(' ' as u8),
            Some(']' as u8),
        ),
        StyleKind::Yaml => push_chars(buf, None, None),
    }
    proof {
        assert(final(buf)@ =~= old(buf)@ + list_close_tok(s));
    }
}

/// Appends a style's hash-closing token (the non-empty case, without the
/// newline part).
pub fn push_hash_close(buf: &mut Vec<u8>, s: StyleKind)
    ensures
        final(buf)@ == old(buf)@ + hash_close_tok(s),
{
    match s {
        StyleKind::Compact | StyleKind::Linear | StyleKind::Knr => push_chars(
            buf,
            Some('}' as u8),
            None,
        ),
        StyleKind::Allman | StyleKind::Whitesmith => push_chars(
            buf,
            Some(' ' as u8),
            Some('}' as u8),
        ),
        StyleKind::Yaml => push_chars(buf, None, None),
    }
    proof {
        assert(final(buf)@ =~= old(buf)@ + hash_close_tok(s));
    }
}

/// Appends a style's empty-list completion.
pub fn push_list_empty_close(buf: &mut Vec<u8>, s: StyleKind)
    ensures
        final(buf)@ == old(buf)@ + list_empty_close_tok(s),
{
    match s {
        StyleKind::Compact | StyleKind::Linear => push_chars(buf, Some(']' as u8), None),
        StyleKind::Knr => push_chars(buf, Some(' ' as u8), Some(']' as u8)),
        StyleKind::Allman | StyleKind::Whitesmith => push_chars(buf, Some(']' as u8), None),
        StyleKind::Yaml => push_chars(buf, Some('[' as u8), Some(']' as u8)),
    }
    proof {
        assert(final(buf)@ =~= old(buf)@ + list_empty_close_tok(s));
    }
}

/// Appends a style's empty-hash completion.
pub fn push_hash_empty_close(buf: &mut Vec<u8>, s: StyleKind)
    ensures
        final(buf)@ == old(buf)@ + hash_empty_close_tok(s),
{
    match s {
        StyleKind::Compact | StyleKind::Linear => push_chars(buf, Some('}' as u8), None),
        StyleKind::Knr => push_chars(buf, Some(' ' as u8), Some('}' as u8)),
        StyleKind::Allman | StyleKind::Whitesmith => push_chars(buf, Some('}' as u8), None),
        StyleKind::Yaml => push_chars(buf, Some('{' as u8), Some('}' as u8)),
    }
    proof {
        assert(final(buf)@ =~= old(buf)@ + hash_empty_close_tok(s));
    }
}

/// Builds a style's empty-list literal.
pub fn list_empty_literal_v(s: StyleKind) -> (r: Vec<u8>)
    ensures
        r@ == list_empty_literal(s),
{
    let mut v: Vec<u8> = Vec::new();
    push_list_open(&mut v, s);
    push_list_empty_close(&mut v, s);
    proof {
        lemma_empty_container_literal(s, Seq::<u8>::empty(), 0);
        assert(v@ =~= list_empty_literal(s));
    }
    v
}

/// Builds a style's empty-hash literal.
pub fn hash_empty_literal_v(s: StyleKind) -> (r: Vec<u8>)
    ensures
        r@ == hash_empty_literal(s),
{
    let mut v: Vec<u8> = Vec::new();
    push_hash_open(&mut v, s);
    push_hash_empty_close(&mut v, s);
    proof {
        lemma_empty_container_literal(s, Seq::<u8>::empty(), 0);
        assert(v@ =~= hash_empty_literal(s));
    }
    v
}

} // verus!
