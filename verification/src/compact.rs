//! The compact JSON style: `,` and `:` with no whitespace at all.

use vstd::prelude::*;
use vstd::utf8::encode_utf8;
use crate::context::{
    ContextError, ExportError, OutputType, can_count, can_count_parent, incr_top, indent_text,
    top_count,
};
use crate::engine::Engine;
use crate::escape::{make_quoted_escaped_string, quote_escape_text};
use crate::sink::ByteSink;
use crate::style::{
    StyleKind, bool_tok_v, container_open_prefix, hash_close_text, hash_empty_literal,
    hash_entry_prefix, hash_key_bytes, hash_empty_literal_v, hash_open_tok, list_close_text,
    list_empty_literal, list_empty_literal_v, list_entry_prefix, list_open_tok, null_tok,
    null_tok_v, true_tok, false_tok,
};

verus! {

/// The compact JSON engine; empty containers render as `[]` and `{}`.
pub struct JSONFormatCompact<W: ByteSink> {
    engine: Engine<W>,
}

impl<W: ByteSink> JSONFormatCompact<W> {
    /// The bytes written to the sink so far.
    pub closed spec fn out(&self) -> Seq<u8> {
        self.engine.out()
    }

    /// The kinds of the open container frames.
    pub closed spec fn kinds(&self) -> Seq<OutputType> {
        self.engine.kinds()
    }

    /// The element counts of the open container frames.
    pub closed spec fn counts(&self) -> Seq<usize> {
        self.engine.counts()
    }

    /// The indent unit's bytes.
    pub closed spec fn unit(&self) -> Seq<u8> {
        self.engine.unit()
    }

    /// The engine's internal invariant.
    pub closed spec fn inv(&self) -> bool {
        self.engine.inv() && self.engine.style() == StyleKind::Compact
    }

    /// Whether the sink accepts every write; see [`ByteSink::always_accepts`].
    /// When it does, no operation of this engine ever fails with an I/O
    /// error.
    pub closed spec fn sink_accepts(&self) -> bool {
        self.engine.sink_accepts()
    }

    /// Builds an engine writing to the given sink, with no open container.
    pub fn new(output: W) -> (r: Self)
        ensures
            r.inv(),
            r.out() == output.sink_bytes(),
            r.kinds() == Seq::<OutputType>::empty(),
            r.counts() == Seq::<usize>::empty(),
            r.sink_accepts() == output.always_accepts(),
    {
        JSONFormatCompact { engine: Engine::new(StyleKind::Compact, output, None) }
    }

    /// Hands the sink back, consuming the engine.
    pub fn into_writer(self) -> (r: W)
        ensures
            r.sink_bytes() == self.out(),
            r.always_accepts() == self.sink_accepts(),
    {
        self.engine.into_writer()
    }

    /// The sink, borrowed.
    pub fn writer_ref(&self) -> (r: &W)
        ensures
            r.sink_bytes() == self.out(),
    {
        self.engine.writer_ref()
    }

    /// Opens a list: inside a list an element separator (and the style's
    /// newline and indentation) comes first, then the opening token; a new
    /// frame with count 0 is pushed and the new depth returned.
    pub fn list_open(&mut self) -> (r: Result<usize, ExportError>)
        requires
            old(self).inv(),
        ensures
            final(self).inv(),
            final(self).unit() == old(self).unit(),
            final(self).sink_accepts() == old(self).sink_accepts(),
            r matches Ok(level) ==> final(self).out() == old(self).out() + container_open_prefix(
                StyleKind::Compact,
                old(self).kinds(),
                old(self).counts(),
                old(self).unit(),
            ) + list_open_tok(StyleKind::Compact) && final(self).kinds() == old(self).kinds().push(
                OutputType::ListType,
            ) && final(self).counts() == old(self).counts().push(0usize) && level == final(self).kinds().len(),
            old(self).sink_accepts() ==> r is Ok,
            r is Err ==> (r matches Err(ExportError::Io(_))) && final(self).kinds() == old(self).kinds() && final(self).counts() == old(self).counts(),
    {
        self.engine.open_list()
    }

    /// Emits what the next list element needs before its token: a separator
    /// unless it is the first element, with the style's newline and
    /// indentation. The element itself is written (and counted) by the
    /// write operation that follows.
    pub fn list_begin_next(&mut self) -> (r: Result<(), ExportError>)
        requires
            old(self).inv(),
        ensures
            final(self).inv(),
            final(self).unit() == old(self).unit(),
            final(self).sink_accepts() == old(self).sink_accepts(),
            final(self).kinds() == old(self).kinds(),
            final(self).counts() == old(self).counts(),
            r is Ok ==> final(self).out() == old(self).out() + list_entry_prefix(
                StyleKind::Compact,
                old(self).kinds(),
                old(self).counts(),
                old(self).unit(),
            ),
            old(self).sink_accepts() ==> r is Ok,
            r is Err ==> (r matches Err(ExportError::Io(_))),
    {
        self.engine.list_begin_next()
    }

    /// Writes a `null` as a list element: the element's separator prefix,
    /// then the token, then the element is counted.
    pub fn list_write_null(&mut self) -> (r: Result<(), ExportError>)
        requires
            old(self).inv(),
            can_count(old(self).counts()),
        ensures
            final(self).inv(),
            final(self).unit() == old(self).unit(),
            final(self).sink_accepts() == old(self).sink_accepts(),
            r is Ok ==> final(self).out() == old(self).out() + list_entry_prefix(
                StyleKind::Compact,
                old(self).kinds(),
                old(self).counts(),
                old(self).unit(),
            ) + null_tok() && final(self).kinds() == old(self).kinds() && final(self).counts() == incr_top(old(self).counts()),
            old(self).sink_accepts() ==> r is Ok,
            r is Err ==> (r matches Err(ExportError::Io(_))) && final(self).kinds() == old(self).kinds() && final(self).counts() == old(self).counts(),
    {
        let tok = null_tok_v();
        self.engine.write_list_leaf(tok.as_slice())
    }

    /// Writes `true` or `false` as a list element: the element's separator prefix,
    /// then the token, then the element is counted.
    pub fn list_write_bool(&mut self, value: bool) -> (r: Result<(), ExportError>)
        requires
            old(self).inv(),
            can_count(old(self).counts()),
        ensures
            final(self).inv(),
            final(self).unit() == old(self).unit(),
            final(self).sink_accepts() == old(self).sink_accepts(),
            r is Ok ==> final(self).out() == old(self).out() + list_entry_prefix(
                StyleKind::Compact,
                old(self).kinds(),
                old(self).counts(),
                old(self).unit(),
            ) + (if value {
                true_tok()
            } else {
                false_tok()
            }) && final(self).kinds() == old(self).kinds() && final(self).counts() == incr_top(old(self).counts()),
            old(self).sink_accepts() ==> r is Ok,
            r is Err ==> (r matches Err(ExportError::Io(_))) && final(self).kinds() == old(self).kinds() && final(self).counts() == old(self).counts(),
    {
        let tok = bool_tok_v(value);
        self.engine.write_list_leaf(tok.as_slice())
    }

    /// Writes a number's text, unquoted as a list element: the element's separator prefix,
    /// then the token, then the element is counted.
    pub fn list_write_number(&mut self, value: &String) -> (r: Result<(), ExportError>)
        requires
            old(self).inv(),
            can_count(old(self).counts()),
        ensures
            final(self).inv(),
            final(self).unit() == old(self).unit(),
            final(self).sink_accepts() == old(self).sink_accepts(),
            r is Ok ==> final(self).out() == old(self).out() + list_entry_prefix(
                StyleKind::Compact,
                old(self).kinds(),
                old(self).counts(),
                old(self).unit(),
            ) + encode_utf8(value@) && final(self).kinds() == old(self).kinds() && final(self).counts() == incr_top(old(self).counts()),
            old(self).sink_accepts() ==> r is Ok,
            r is Err ==> (r matches Err(ExportError::Io(_))) && final(self).kinds() == old(self).kinds() && final(self).counts() == old(self).counts(),
    {
        self.engine.write_list_leaf(value.as_str().as_bytes())
    }

    /// Writes a text, quoted and escaped as a list element: the element's separator prefix,
    /// then the token, then the element is counted.
    pub fn list_write_string(&mut self, value: &String) -> (r: Result<(), ExportError>)
        requires
            old(self).inv(),
            can_count(old(self).counts()),
        ensures
            final(self).inv(),
            final(self).unit() == old(self).unit(),
            final(self).sink_accepts() == old(self).sink_accepts(),
            r is Ok ==> final(self).out() == old(self).out() + list_entry_prefix(
                StyleKind::Compact,
                old(self).kinds(),
                old(self).counts(),
                old(self).unit(),
            ) + encode_utf8(quote_escape_text(value@)) && final(self).kinds() == old(self).kinds() && final(self).counts() == incr_top(old(self).counts()),
            old(self).sink_accepts() ==> r is Ok,
            r is Err ==> (r matches Err(ExportError::Io(_))) && final(self).kinds() == old(self).kinds() && final(self).counts() == old(self).counts(),
    {
        let quoted = make_quoted_escaped_string(value);
        self.engine.write_list_leaf(quoted.as_str().as_bytes())
    }

    /// Writes the fixed empty-list literal as a list element: the element's separator prefix,
    /// then the token, then the element is counted.
    pub fn list_write_empty_list(&mut self) -> (r: Result<(), ExportError>)
        requires
            old(self).inv(),
            can_count(old(self).counts()),
        ensures
            final(self).inv(),
            final(self).unit() == old(self).unit(),
            final(self).sink_accepts() == old(self).sink_accepts(),
            r is Ok ==> final(self).out() == old(self).out() + list_entry_prefix(
                StyleKind::Compact,
                old(self).kinds(),
                old(self).counts(),
                old(self).unit(),
            ) + list_empty_literal(StyleKind::Compact) && final(self).kinds() == old(self).kinds() && final(self).counts() == incr_top(old(self).counts()),
            old(self).sink_accepts() ==> r is Ok,
            r is Err ==> (r matches Err(ExportError::Io(_))) && final(self).kinds() == old(self).kinds() && final(self).counts() == old(self).counts(),
    {
        let tok = list_empty_literal_v(StyleKind::Compact);
        self.engine.write_list_leaf(tok.as_slice())
    }

    /// Writes the fixed empty-hash literal as a list element: the element's separator prefix,
    /// then the token, then the element is counted.
    pub fn list_write_empty_hash(&mut self) -> (r: Result<(), ExportError>)
        requires
            old(self).inv(),
            can_count(old(self).counts()),
        ensures
            final(self).inv(),
            final(self).unit() == old(self).unit(),
            final(self).sink_accepts() == old(self).sink_accepts(),
            r is Ok ==> final(self).out() == old(self).out() + list_entry_prefix(
                StyleKind::Compact,
                old(self).kinds(),
                old(self).counts(),
                old(self).unit(),
            ) + hash_empty_literal(StyleKind::Compact) && final(self).kinds() == old(self).kinds() && final(self).counts() == incr_top(old(self).counts()),
            old(self).sink_accepts() ==> r is Ok,
            r is Err ==> (r matches Err(ExportError::Io(_))) && final(self).kinds() == old(self).kinds() && final(self).counts() == old(self).counts(),
    {
        let tok = hash_empty_literal_v(StyleKind::Compact);
        self.engine.write_list_leaf(tok.as_slice())
    }

    /// Closes a list: the frame is popped and must be a list frame
    /// (else [`ContextError::NotAnItemList`], with nothing written); with zero
    /// elements the style's fixed empty literal is completed; the closed
    /// container counts as one element of its parent.
    pub fn list_close(&mut self) -> (r: Result<usize, ExportError>)
        requires
            old(self).inv(),
            can_count_parent(old(self).counts()),
        ensures
            final(self).inv(),
            final(self).unit() == old(self).unit(),
            final(self).sink_accepts() == old(self).sink_accepts(),
            r matches Ok(level) ==> old(self).kinds().len() > 0 && old(self).kinds().last() == OutputType::ListType && final(self).out() == old(self).out() + list_close_text(
                StyleKind::Compact,
                old(self).unit(),
                old(self).kinds().len() as int,
                top_count(old(self).counts()),
            ) && final(self).kinds() == old(self).kinds().drop_last() && final(self).counts() == incr_top(old(self).counts().drop_last()) && level == final(self).kinds().len(),
            r matches Err(ExportError::Context(c)) ==> (c == ContextError::NotAnItemList && final(self).out() == old(self).out() && (old(self).kinds().len() == 0 || old(self).kinds().last() != OutputType::ListType)),
            (old(self).kinds().len() == 0 || old(self).kinds().last() != OutputType::ListType)
                ==> r == Err::<usize, ExportError>(ExportError::Context(
                ContextError::NotAnItemList,
            )),
            (old(self).sink_accepts() && old(self).kinds().len() > 0 && old(self).kinds().last() == OutputType::ListType) ==> r is Ok,
            (old(self).kinds().len() == 0 && r is Err) ==> final(self).kinds() == old(self).kinds() && final(self).counts() == old(self).counts(),
            (old(self).kinds().len() > 0 && r is Err) ==> final(self).kinds() == old(self).kinds().drop_last(),
    {
        self.engine.close_list()
    }

    /// Opens a hash: inside a list an element separator (and the style's
    /// newline and indentation) comes first, then the opening token; a new
    /// frame with count 0 is pushed and the new depth returned.
    pub fn hash_open(&mut self) -> (r: Result<usize, ExportError>)
        requires
            old(self).inv(),
        ensures
            final(self).inv(),
            final(self).unit() == old(self).unit(),
            final(self).sink_accepts() == old(self).sink_accepts(),
            r matches Ok(level) ==> final(self).out() == old(self).out() + container_open_prefix(
                StyleKind::Compact,
                old(self).kinds(),
                old(self).counts(),
                old(self).unit(),
            ) + hash_open_tok(StyleKind::Compact) && final(self).kinds() == old(self).kinds().push(
                OutputType::HashType,
            ) && final(self).counts() == old(self).counts().push(0usize) && level == final(self).kinds().len(),
            old(self).sink_accepts() ==> r is Ok,
            r is Err ==> (r matches Err(ExportError::Io(_))) && final(self).kinds() == old(self).kinds() && final(self).counts() == old(self).counts(),
    {
        self.engine.open_hash()
    }

    /// Emits what the next hash entry needs before its value: a separator
    /// unless it is the first entry (with the style's newline and
    /// indentation), then the quoted key and the style's colon.
    pub fn hash_begin_next(&mut self, key: &String) -> (r: Result<(), ExportError>)
        requires
            old(self).inv(),
        ensures
            final(self).inv(),
            final(self).unit() == old(self).unit(),
            final(self).sink_accepts() == old(self).sink_accepts(),
            final(self).kinds() == old(self).kinds(),
            final(self).counts() == old(self).counts(),
            r is Ok ==> final(self).out() == old(self).out() + hash_entry_prefix(
                StyleKind::Compact,
                old(self).kinds(),
                old(self).counts(),
                old(self).unit(),
            ) + hash_key_bytes(StyleKind::Compact, key@),
            old(self).sink_accepts() ==> r is Ok,
            r is Err ==> (r matches Err(ExportError::Io(_))),
    {
        self.engine.hash_begin_next(key)
    }

    /// Emits the quoted key and the style's colon, without a separator.
    pub fn hash_write_key(&mut self, key: &String) -> (r: Result<(), ExportError>)
        requires
            old(self).inv(),
        ensures
            final(self).inv(),
            final(self).unit() == old(self).unit(),
            final(self).sink_accepts() == old(self).sink_accepts(),
            final(self).kinds() == old(self).kinds(),
            final(self).counts() == old(self).counts(),
            r is Ok ==> final(self).out() == old(self).out() + hash_key_bytes(StyleKind::Compact, key@),
            old(self).sink_accepts() ==> r is Ok,
            r is Err ==> (r matches Err(ExportError::Io(_))),
    {
        self.engine.hash_write_key(key)
    }

    /// Writes a `null` as a hash entry: the entry's separator prefix, the
    /// quoted key and the style's colon, then the token, then the entry is
    /// counted.
    pub fn hash_write_null(&mut self, key: &String) -> (r: Result<(), ExportError>)
        requires
            old(self).inv(),
            can_count(old(self).counts()),
        ensures
            final(self).inv(),
            final(self).unit() == old(self).unit(),
            final(self).sink_accepts() == old(self).sink_accepts(),
            r is Ok ==> final(self).out() == old(self).out() + hash_entry_prefix(
                StyleKind::Compact,
                old(self).kinds(),
                old(self).counts(),
                old(self).unit(),
            ) + hash_key_bytes(StyleKind::Compact, key@) + null_tok() && final(self).kinds() == old(self).kinds() && final(self).counts() == incr_top(old(self).counts()),
            old(self).sink_accepts() ==> r is Ok,
            r is Err ==> (r matches Err(ExportError::Io(_))) && final(self).kinds() == old(self).kinds() && final(self).counts() == old(self).counts(),
    {
        let tok = null_tok_v();
        self.engine.write_hash_leaf(key, tok.as_slice())
    }

    /// Writes `true` or `false` as a hash entry: the entry's separator prefix, the
    /// quoted key and the style's colon, then the token, then the entry is
    /// counted.
    pub fn hash_write_bool(&mut self, key: &String, value: bool) -> (r: Result<(), ExportError>)
        requires
            old(self).inv(),
            can_count(old(self).counts()),
        ensures
            final(self).inv(),
            final(self).unit() == old(self).unit(),
            final(self).sink_accepts() == old(self).sink_accepts(),
            r is Ok ==> final(self).out() == old(self).out() + hash_entry_prefix(
                StyleKind::Compact,
                old(self).kinds(),
                old(self).counts(),
                old(self).unit(),
            ) + hash_key_bytes(StyleKind::Compact, key@) + (if value {
                true_tok()
            } else {
                false_tok()
            }) && final(self).kinds() == old(self).kinds() && final(self).counts() == incr_top(old(self).counts()),
            old(self).sink_accepts() ==> r is Ok,
            r is Err ==> (r matches Err(ExportError::Io(_))) && final(self).kinds() == old(self).kinds() && final(self).counts() == old(self).counts(),
    {
        let tok = bool_tok_v(value);
        self.engine.write_hash_leaf(key, tok.as_slice())
    }

    /// Writes a number's text, unquoted as a hash entry: the entry's separator prefix, the
    /// quoted key and the style's colon, then the token, then the entry is
    /// counted.
    pub fn hash_write_number(&mut self, key: &String, value: &String) -> (r: Result<(), ExportError>)
        requires
            old(self).inv(),
            can_count(old(self).counts()),
        ensures
            final(self).inv(),
            final(self).unit() == old(self).unit(),
            final(self).sink_accepts() == old(self).sink_accepts(),
            r is Ok ==> final(self).out() == old(self).out() + hash_entry_prefix(
                StyleKind::Compact,
                old(self).kinds(),
                old(self).counts(),
                old(self).unit(),
            ) + hash_key_bytes(StyleKind::Compact, key@) + encode_utf8(value@) && final(self).kinds() == old(self).kinds() && final(self).counts() == incr_top(old(self).counts()),
            old(self).sink_accepts() ==> r is Ok,
            r is Err ==> (r matches Err(ExportError::Io(_))) && final(self).kinds() == old(self).kinds() && final(self).counts() == old(self).counts(),
    {
        self.engine.write_hash_leaf(key, value.as_str().as_bytes())
    }

    /// Writes a text, quoted and escaped as a hash entry: the entry's separator prefix, the
    /// quoted key and the style's colon, then the token, then the entry is
    /// counted.
    pub fn hash_write_string(&mut self, key: &String, value: &String) -> (r: Result<(), ExportError>)
        requires
            old(self).inv(),
            can_count(old(self).counts()),
        ensures
            final(self).inv(),
            final(self).unit() == old(self).unit(),
            final(self).sink_accepts() == old(self).sink_accepts(),
            r is Ok ==> final(self).out() == old(self).out() + hash_entry_prefix(
                StyleKind::Compact,
                old(self).kinds(),
                old(self).counts(),
                old(self).unit(),
            ) + hash_key_bytes(StyleKind::Compact, key@) + encode_utf8(quote_escape_text(value@)) && final(self).kinds() == old(self).kinds() && final(self).counts() == incr_top(old(self).counts()),
            old(self).sink_accepts() ==> r is Ok,
            r is Err ==> (r matches Err(ExportError::Io(_))) && final(self).kinds() == old(self).kinds() && final(self).counts() == old(self).counts(),
    {
        let quoted = make_quoted_escaped_string(value);
        self.engine.write_hash_leaf(key, quoted.as_str().as_bytes())
    }

    /// Writes the fixed empty-list literal as a hash entry: the entry's separator prefix, the
    /// quoted key and the style's colon, then the token, then the entry is
    /// counted.
    pub fn hash_write_empty_list(&mut self, key: &String) -> (r: Result<(), ExportError>)
        requires
            old(self).inv(),
            can_count(old(self).counts()),
        ensures
            final(self).inv(),
            final(self).unit() == old(self).unit(),
            final(self).sink_accepts() == old(self).sink_accepts(),
            r is Ok ==> final(self).out() == old(self).out() + hash_entry_prefix(
                StyleKind::Compact,
                old(self).kinds(),
                old(self).counts(),
                old(self).unit(),
            ) + hash_key_bytes(StyleKind::Compact, key@) + list_empty_literal(StyleKind::Compact) && final(self).kinds() == old(self).kinds() && final(self).counts() == incr_top(old(self).counts()),
            old(self).sink_accepts() ==> r is Ok,
            r is Err ==> (r matches Err(ExportError::Io(_))) && final(self).kinds() == old(self).kinds() && final(self).counts() == old(self).counts(),
    {
        let tok = list_empty_literal_v(StyleKind::Compact);
        self.engine.write_hash_leaf(key, tok.as_slice())
    }

    /// Writes the fixed empty-hash literal as a hash entry: the entry's separator prefix, the
    /// quoted key and the style's colon, then the token, then the entry is
    /// counted.
    pub fn hash_write_empty_hash(&mut self, key: &String) -> (r: Result<(), ExportError>)
        requires
            old(self).inv(),
            can_count(old(self).counts()),
        ensures
            final(self).inv(),
            final(self).unit() == old(self).unit(),
            final(self).sink_accepts() == old(self).sink_accepts(),
            r is Ok ==> final(self).out() == old(self).out() + hash_entry_prefix(
                StyleKind::Compact,
                old(self).kinds(),
                old(self).counts(),
                old(self).unit(),
            ) + hash_key_bytes(StyleKind::Compact, key@) + hash_empty_literal(StyleKind::Compact) && final(self).kinds() == old(self).kinds() && final(self).counts() == incr_top(old(self).counts()),
            old(self).sink_accepts() ==> r is Ok,
            r is Err ==> (r matches Err(ExportError::Io(_))) && final(self).kinds() == old(self).kinds() && final(self).counts() == old(self).counts(),
    {
        let tok = hash_empty_literal_v(StyleKind::Compact);
        self.engine.write_hash_leaf(key, tok.as_slice())
    }

    /// Closes a hash: the frame is popped and must be a hash frame
    /// (else [`ContextError::NotAnItemHash`], with nothing written); with zero
    /// elements the style's fixed empty literal is completed; the closed
    /// container counts as one element of its parent.
    pub fn hash_close(&mut self) -> (r: Result<usize, ExportError>)
        requires
            old(self).inv(),
            can_count_parent(old(self).counts()),
        ensures
            final(self).inv(),
            final(self).unit() == old(self).unit(),
            final(self).sink_accepts() == old(self).sink_accepts(),
            r matches Ok(level) ==> old(self).kinds().len() > 0 && old(self).kinds().last() == OutputType::HashType && final(self).out() == old(self).out() + hash_close_text(
                StyleKind::Compact,
                old(self).unit(),
                old(self).kinds().len() as int,
                top_count(old(self).counts()),
            ) && final(self).kinds() == old(self).kinds().drop_last() && final(self).counts() == incr_top(old(self).counts().drop_last()) && level == final(self).kinds().len(),
            r matches Err(ExportError::Context(c)) ==> (c == ContextError::NotAnItemHash && final(self).out() == old(self).out() && (old(self).kinds().len() == 0 || old(self).kinds().last() != OutputType::HashType)),
            (old(self).kinds().len() == 0 || old(self).kinds().last() != OutputType::HashType)
                ==> r == Err::<usize, ExportError>(ExportError::Context(
                ContextError::NotAnItemHash,
            )),
            (old(self).sink_accepts() && old(self).kinds().len() > 0 && old(self).kinds().last() == OutputType::HashType) ==> r is Ok,
            (old(self).kinds().len() == 0 && r is Err) ==> final(self).kinds() == old(self).kinds() && final(self).counts() == old(self).counts(),
            (old(self).kinds().len() > 0 && r is Err) ==> final(self).kinds() == old(self).kinds().drop_last(),
    {
        self.engine.close_hash()
    }
}

} // verus!

