//! The mechanism shared by all style engines.
//!
//! An engine owns a byte sink and an export context, and realizes the common
//! operation set: every write emits the style's separator/newline/indent
//! prefix as the context dictates, then the token, then counts the element;
//! every open/close updates the context symmetrically with the bracket
//! bytes, closing an empty container as the style's fixed empty literal. The
//! per-style types wrap this engine with their fixed [`StyleKind`].

use vstd::prelude::*;
use crate::context::{
    ContextError, ExportError, OutputType, StructuredExportContext, can_count, can_count_parent,
    incr_top, indent_text, top_count,
};
use crate::escape::make_quoted_string;
use crate::sink::{ByteSink, push_all};
use crate::style::{
    StyleKind, container_open_prefix, hash_close_text, hash_entry_prefix, hash_key_bytes,
    hash_open_tok, list_close_text, list_entry_prefix, list_open_tok, push_colon, push_crlf,
    push_dash, push_hash_close, push_hash_empty_close, push_hash_open, push_list_close,
    push_list_empty_close, push_list_open, push_sep,
};

verus! {

/// Appends what the style writes before a list element.
fn push_list_prefix(buf: &mut Vec<u8>, s: StyleKind, ctx: &StructuredExportContext)
    requires
        ctx.sinv(),
    ensures
        final(buf)@ == old(buf)@ + list_entry_prefix(s, ctx.skinds(), ctx.scounts(), ctx.unit()),
{
    let first = ctx.top_is_first();
    match s {
        StyleKind::Knr => {
            if !first {
                push_sep(buf, s);
            }
            push_crlf(buf);
            push_all(buf, ctx.get_indent_vec().as_slice());
        },
        StyleKind::Yaml => {
            if !(first && ctx.at_top_level()) {
                push_crlf(buf);
                push_all(buf, ctx.get_outdent_vec().as_slice());
            }
            push_dash(buf);
        },
        _ => {
            if !first {
                push_sep(buf, s);
            }
        },
    }
    proof {
        assert(final(buf)@ =~= old(buf)@ + list_entry_prefix(
            s,
            ctx.skinds(),
            ctx.scounts(),
            ctx.unit(),
        ));
    }
}

/// Appends what the style writes before a hash entry's key.
fn push_hash_prefix(buf: &mut Vec<u8>, s: StyleKind, ctx: &StructuredExportContext)
    requires
        ctx.sinv(),
    ensures
        final(buf)@ == old(buf)@ + hash_entry_prefix(s, ctx.skinds(), ctx.scounts(), ctx.unit()),
{
    let first = ctx.top_is_first();
    match s {
        StyleKind::Knr => {
            if !first {
                push_sep(buf, s);
            }
            push_crlf(buf);
            push_all(buf, ctx.get_indent_vec().as_slice());
        },
        StyleKind::Yaml => {
            if !(first && ctx.at_top_level()) {
                push_crlf(buf);
                push_all(buf, ctx.get_outdent_vec().as_slice());
            }
        },
        _ => {
            if !first {
                push_sep(buf, s);
            }
        },
    }
    proof {
        assert(final(buf)@ =~= old(buf)@ + hash_entry_prefix(
            s,
            ctx.skinds(),
            ctx.scounts(),
            ctx.unit(),
        ));
    }
}

/// Appends what the style writes before a nested container's opening
/// bracket: a list element's prefix inside a list, nothing otherwise.
fn push_open_prefix(buf: &mut Vec<u8>, s: StyleKind, ctx: &StructuredExportContext)
    requires
        ctx.sinv(),
    ensures
        final(buf)@ == old(buf)@ + container_open_prefix(
            s,
            ctx.skinds(),
            ctx.scounts(),
            ctx.unit(),
        ),
{
    if ctx.top_is_list() {
        push_list_prefix(buf, s, ctx);
    }
    proof {
        assert(final(buf)@ =~= old(buf)@ + container_open_prefix(
            s,
            ctx.skinds(),
            ctx.scounts(),
            ctx.unit(),
        ));
    }
}

/// Appends the quoted key and the style's colon.
fn push_key(buf: &mut Vec<u8>, s: StyleKind, key: &String)
    ensures
        final(buf)@ == old(buf)@ + hash_key_bytes(s, key@),
{
    let quoted = make_quoted_string(key);
    push_all(buf, quoted.as_str().as_bytes());
    push_colon(buf, s);
    proof {
        assert(final(buf)@ =~= old(buf)@ + hash_key_bytes(s, key@));
    }
}

/// One style engine: a byte sink, an export context and the style realized.
pub struct Engine<W: ByteSink> {
    style: StyleKind,
    writer: W,
    context: StructuredExportContext,
}

impl<W: ByteSink> Engine<W> {
    /// The style this engine realizes.
    pub closed spec fn style(&self) -> StyleKind {
        self.style
    }

    /// The bytes written to the sink so far.
    pub closed spec fn out(&self) -> Seq<u8> {
        self.writer.sink_bytes()
    }

    /// The kinds of the open container frames.
    pub closed spec fn kinds(&self) -> Seq<OutputType> {
        self.context.skinds()
    }

    /// The element counts of the open container frames.
    pub closed spec fn counts(&self) -> Seq<usize> {
        self.context.scounts()
    }

    /// The indent unit's bytes.
    pub closed spec fn unit(&self) -> Seq<u8> {
        self.context.unit()
    }

    /// The engine's internal invariant.
    pub closed spec fn inv(&self) -> bool {
        self.context.sinv()
    }

    /// Whether the sink accepts every write; see [`ByteSink::always_accepts`].
    /// When it does, no operation of the engine ever fails with an I/O error.
    pub closed spec fn sink_accepts(&self) -> bool {
        self.writer.always_accepts()
    }

    /// Builds an engine over a sink with no open frame.
    pub fn new(style: StyleKind, writer: W, indent: Option<String>) -> (r: Engine<W>)
        ensures
            r.inv(),
            r.style() == style,
            r.out() == writer.sink_bytes(),
            r.kinds() == Seq::<OutputType>::empty(),
            r.counts() == Seq::<usize>::empty(),
            r.sink_accepts() == writer.always_accepts(),
            r.unit() == (match indent {
                Some(s) => vstd::utf8::encode_utf8(s@),
                None => seq![('\t' as u8)],
            }),
    {
        Engine { style, writer, context: StructuredExportContext::new(indent) }
    }

    /// Hands the sink back, consuming the engine.
    pub fn into_writer(self) -> (r: W)
        ensures
            r.sink_bytes() == self.out(),
            r.always_accepts() == self.sink_accepts(),
    {
        self.writer
    }

    /// The sink, borrowed.
    pub fn writer_ref(&self) -> (r: &W)
        ensures
            r.sink_bytes() == self.out(),
    {
        &self.writer
    }

    /// The cached indent text for the current depth.
    pub fn indent_vec(&self) -> (r: &Vec<u8>)
        requires
            self.inv(),
        ensures
            r@ == indent_text(self.unit(), self.kinds().len() as int),
    {
        self.context.get_indent_vec()
    }

    /// The cached indent text for the parent depth.
    pub fn outdent_vec(&self) -> (r: &Vec<u8>)
        requires
            self.inv(),
        ensures
            r@ == indent_text(self.unit(), self.kinds().len() as int - 1),
    {
        self.context.get_outdent_vec()
    }

    /// Writes a byte run to the sink, classifying a failure as an I/O export
    /// error. The context is untouched either way.
    fn write_buf(&mut self, data: &[u8]) -> (r: Result<(), ExportError>)
        ensures
            final(self).style() == old(self).style(),
            final(self).context == old(self).context,
            final(self).inv() == old(self).inv(),
            final(self).kinds() == old(self).kinds(),
            final(self).counts() == old(self).counts(),
            final(self).unit() == old(self).unit(),
            final(self).sink_accepts() == old(self).sink_accepts(),
            old(self).sink_accepts() ==> r is Ok,
            r is Ok ==> final(self).out() == old(self).out() + data@,
            r is Err ==> (r matches Err(ExportError::Io(_))),
    {
        match self.writer.write_bytes(data) {
            Ok(_) => Ok(()),
            Err(e) => Err(ExportError::Io(e)),
        }
    }

    /// Writes the current depth's indent text to the sink.
    pub fn write_indent_text(&mut self) -> (r: Result<(), ExportError>)
        requires
            old(self).inv(),
        ensures
            final(self).inv(),
            final(self).style() == old(self).style(),
            final(self).unit() == old(self).unit(),
            final(self).sink_accepts() == old(self).sink_accepts(),
            final(self).kinds() == old(self).kinds(),
            final(self).counts() == old(self).counts(),
            r is Ok ==> final(self).out() == old(self).out() + indent_text(
                old(self).unit(),
                old(self).kinds().len() as int,
            ),
            old(self).sink_accepts() ==> r is Ok,
            r is Err ==> (r matches Err(ExportError::Io(_))),
    {
        let mut buf: Vec<u8> = Vec::new();
        push_all(&mut buf, self.context.get_indent_vec().as_slice());
        let r = self.write_buf(buf.as_slice());
        proof {
            assert(Seq::<u8>::empty() + indent_text(old(self).unit(), old(self).kinds().len() as int)
                =~= indent_text(old(self).unit(), old(self).kinds().len() as int));
        }
        r
    }

    /// Writes the parent depth's indent text to the sink.
    pub fn write_outdent_text(&mut self) -> (r: Result<(), ExportError>)
        requires
            old(self).inv(),
        ensures
            final(self).inv(),
            final(self).style() == old(self).style(),
            final(self).unit() == old(self).unit(),
            final(self).sink_accepts() == old(self).sink_accepts(),
            final(self).kinds() == old(self).kinds(),
            final(self).counts() == old(self).counts(),
            r is Ok ==> final(self).out() == old(self).out() + indent_text(
                old(self).unit(),
                old(self).kinds().len() as int - 1,
            ),
            old(self).sink_accepts() ==> r is Ok,
            r is Err ==> (r matches Err(ExportError::Io(_))),
    {
        let mut buf: Vec<u8> = Vec::new();
        push_all(&mut buf, self.context.get_outdent_vec().as_slice());
        let r = self.write_buf(buf.as_slice());
        proof {
            assert(Seq::<u8>::empty() + indent_text(
                old(self).unit(),
                old(self).kinds().len() as int - 1,
            ) =~= indent_text(old(self).unit(), old(self).kinds().len() as int - 1));
        }
        r
    }

    /// Emits the separator a next list element needs (nothing before the
    /// first), with the style's newline and indentation.
    pub fn list_begin_next(&mut self) -> (r: Result<(), ExportError>)
        requires
            old(self).inv(),
        ensures
            final(self).inv(),
            final(self).style() == old(self).style(),
            final(self).unit() == old(self).unit(),
            final(self).sink_accepts() == old(self).sink_accepts(),
            final(self).kinds() == old(self).kinds(),
            final(self).counts() == old(self).counts(),
            r is Ok ==> final(self).out() == old(self).out() + list_entry_prefix(
                old(self).style(),
                old(self).kinds(),
                old(self).counts(),
                old(self).unit(),
            ),
            old(self).sink_accepts() ==> r is Ok,
            r is Err ==> (r matches Err(ExportError::Io(_))),
    {
        let mut buf: Vec<u8> = Vec::new();
        push_list_prefix(&mut buf, self.style, &self.context);
        self.write_buf(buf.as_slice())
    }

    /// Emits the separator a next hash entry needs, then the quoted key and
    /// the style's colon.
    pub fn hash_begin_next(&mut self, key: &String) -> (r: Result<(), ExportError>)
        requires
            old(self).inv(),
        ensures
            final(self).inv(),
            final(self).style() == old(self).style(),
            final(self).unit() == old(self).unit(),
            final(self).sink_accepts() == old(self).sink_accepts(),
            final(self).kinds() == old(self).kinds(),
            final(self).counts() == old(self).counts(),
            r is Ok ==> final(self).out() == old(self).out() + hash_entry_prefix(
                old(self).style(),
                old(self).kinds(),
                old(self).counts(),
                old(self).unit(),
            ) + hash_key_bytes(old(self).style(), key@),
            old(self).sink_accepts() ==> r is Ok,
            r is Err ==> (r matches Err(ExportError::Io(_))),
    {
        let mut buf: Vec<u8> = Vec::new();
        push_hash_prefix(&mut buf, self.style, &self.context);
        push_key(&mut buf, self.style, key);
        let r = self.write_buf(buf.as_slice());
        proof {
            if r is Ok {
                assert(final(self).out() =~= old(self).out() + hash_entry_prefix(
                    old(self).style(),
                    old(self).kinds(),
                    old(self).counts(),
                    old(self).unit(),
                ) + hash_key_bytes(old(self).style(), key@));
            }
        }
        r
    }

    /// Emits the quoted key and the style's colon, without a separator.
    pub fn hash_write_key(&mut self, key: &String) -> (r: Result<(), ExportError>)
        requires
            old(self).inv(),
        ensures
            final(self).inv(),
            final(self).style() == old(self).style(),
            final(self).unit() == old(self).unit(),
            final(self).sink_accepts() == old(self).sink_accepts(),
            final(self).kinds() == old(self).kinds(),
            final(self).counts() == old(self).counts(),
            r is Ok ==> final(self).out() == old(self).out() + hash_key_bytes(
                old(self).style(),
                key@,
            ),
            old(self).sink_accepts() ==> r is Ok,
            r is Err ==> (r matches Err(ExportError::Io(_))),
    {
        let mut buf: Vec<u8> = Vec::new();
        push_key(&mut buf, self.style, key);
        self.write_buf(buf.as_slice())
    }

    /// Writes one list element: the element's prefix, then the token, then
    /// the element is counted.
    pub fn write_list_leaf(&mut self, token: &[u8]) -> (r: Result<(), ExportError>)
        requires
            old(self).inv(),
            can_count(old(self).counts()),
        ensures
            final(self).inv(),
            final(self).style() == old(self).style(),
            final(self).unit() == old(self).unit(),
            final(self).sink_accepts() == old(self).sink_accepts(),
            r is Ok ==> final(self).out() == old(self).out() + list_entry_prefix(
                old(self).style(),
                old(self).kinds(),
                old(self).counts(),
                old(self).unit(),
            ) + token@ && final(self).kinds() == old(self).kinds() && final(self).counts()
                == incr_top(old(self).counts()),
            old(self).sink_accepts() ==> r is Ok,
            r is Err ==> (r matches Err(ExportError::Io(_))) && final(self).kinds() == old(self).kinds() && final(self).counts() == old(self).counts(),
    {
        let mut buf: Vec<u8> = Vec::new();
        push_list_prefix(&mut buf, self.style, &self.context);
        push_all(&mut buf, token);
        let r = self.write_buf(buf.as_slice());
        match r {
            Ok(_) => {
                self.context.count_item();
                proof {
                    assert(final(self).out() =~= old(self).out() + list_entry_prefix(
                        old(self).style(),
                        old(self).kinds(),
                        old(self).counts(),
                        old(self).unit(),
                    ) + token@);
                }
                Ok(())
            },
            Err(e) => Err(e),
        }
    }

    /// Writes one hash entry: the entry's prefix, the quoted key and colon,
    /// then the token, then the entry is counted.
    pub fn write_hash_leaf(&mut self, key: &String, token: &[u8]) -> (r: Result<(), ExportError>)
        requires
            old(self).inv(),
            can_count(old(self).counts()),
        ensures
            final(self).inv(),
            final(self).style() == old(self).style(),
            final(self).unit() == old(self).unit(),
            final(self).sink_accepts() == old(self).sink_accepts(),
            r is Ok ==> final(self).out() == old(self).out() + hash_entry_prefix(
                old(self).style(),
                old(self).kinds(),
                old(self).counts(),
                old(self).unit(),
            ) + hash_key_bytes(old(self).style(), key@) + token@ && final(self).kinds() == old(self).kinds() && final(self).counts() == incr_top(old(self).counts()),
            old(self).sink_accepts() ==> r is Ok,
            r is Err ==> (r matches Err(ExportError::Io(_))) && final(self).kinds() == old(self).kinds() && final(self).counts() == old(self).counts(),
    {
        let mut buf: Vec<u8> = Vec::new();
        push_hash_prefix(&mut buf, self.style, &self.context);
        push_key(&mut buf, self.style, key);
        push_all(&mut buf, token);
        let r = self.write_buf(buf.as_slice());
        match r {
            Ok(_) => {
                self.context.count_item();
                proof {
                    assert(final(self).out() =~= old(self).out() + hash_entry_prefix(
                        old(self).style(),
                        old(self).kinds(),
                        old(self).counts(),
                        old(self).unit(),
                    ) + hash_key_bytes(old(self).style(), key@) + token@);
                }
                Ok(())
            },
            Err(e) => Err(e),
        }
    }

    /// Opens a list: inside a list it first emits an element prefix, then
    /// the style's opening bracket; a new frame with count 0 is pushed and
    /// the new depth returned.
    pub fn open_list(&mut self) -> (r: Result<usize, ExportError>)
        requires
            old(self).inv(),
        ensures
            final(self).inv(),
            final(self).style() == old(self).style(),
            final(self).unit() == old(self).unit(),
            final(self).sink_accepts() == old(self).sink_accepts(),
            r matches Ok(level) ==> final(self).out() == old(self).out() + container_open_prefix(
                old(self).style(),
                old(self).kinds(),
                old(self).counts(),
                old(self).unit(),
            ) + list_open_tok(old(self).style()) && final(self).kinds() == old(self).kinds().push(
                OutputType::ListType,
            ) && final(self).counts() == old(self).counts().push(0usize) && level == final(self).kinds().len(),
            old(self).sink_accepts() ==> r is Ok,
            r is Err ==> (r matches Err(ExportError::Io(_))) && final(self).kinds() == old(self).kinds() && final(self).counts() == old(self).counts(),
    {
        let mut buf: Vec<u8> = Vec::new();
        push_open_prefix(&mut buf, self.style, &self.context);
        push_list_open(&mut buf, self.style);
        match self.write_buf(buf.as_slice()) {
            Ok(_) => {
                let level = self.context.open_list();
                proof {
                    assert(final(self).out() =~= old(self).out() + container_open_prefix(
                        old(self).style(),
                        old(self).kinds(),
                        old(self).counts(),
                        old(self).unit(),
                    ) + list_open_tok(old(self).style()));
                }
                Ok(level)
            },
            Err(e) => Err(e),
        }
    }

    /// Opens a hash; the mirror image of [`Engine::open_list`].
    pub fn open_hash(&mut self) -> (r: Result<usize, ExportError>)
        requires
            old(self).inv(),
        ensures
            final(self).inv(),
            final(self).style() == old(self).style(),
            final(self).unit() == old(self).unit(),
            final(self).sink_accepts() == old(self).sink_accepts(),
            r matches Ok(level) ==> final(self).out() == old(self).out() + container_open_prefix(
                old(self).style(),
                old(self).kinds(),
                old(self).counts(),
                old(self).unit(),
            ) + hash_open_tok(old(self).style()) && final(self).kinds() == old(self).kinds().push(
                OutputType::HashType,
            ) && final(self).counts() == old(self).counts().push(0usize) && level == final(self).kinds().len(),
            old(self).sink_accepts() ==> r is Ok,
            r is Err ==> (r matches Err(ExportError::Io(_))) && final(self).kinds() == old(self).kinds() && final(self).counts() == old(self).counts(),
    {
        let mut buf: Vec<u8> = Vec::new();
        push_open_prefix(&mut buf, self.style, &self.context);
        push_hash_open(&mut buf, self.style);
        match self.write_buf(buf.as_slice()) {
            Ok(_) => {
                let level = self.context.open_hash();
                proof {
                    assert(final(self).out() =~= old(self).out() + container_open_prefix(
                        old(self).style(),
                        old(self).kinds(),
                        old(self).counts(),
                        old(self).unit(),
                    ) + hash_open_tok(old(self).style()));
                }
                Ok(level)
            },
            Err(e) => Err(e),
        }
    }

    /// Closes a list: the frame is popped and must be a list frame (else a
    /// context error, with nothing written); an empty list is completed as
    /// the style's empty literal; the closed list counts as one element of
    /// its parent; the new depth is returned.
    pub fn close_list(&mut self) -> (r: Result<usize, ExportError>)
        requires
            old(self).inv(),
            can_count_parent(old(self).counts()),
        ensures
            final(self).inv(),
            final(self).style() == old(self).style(),
            final(self).unit() == old(self).unit(),
            final(self).sink_accepts() == old(self).sink_accepts(),
            r matches Ok(level) ==> old(self).kinds().len() > 0 && old(self).kinds().last()
                == OutputType::ListType && final(self).out() == old(self).out() + list_close_text(
                old(self).style(),
                old(self).unit(),
                old(self).kinds().len() as int,
                top_count(old(self).counts()),
            ) && final(self).kinds() == old(self).kinds().drop_last() && final(self).counts()
                == incr_top(old(self).counts().drop_last()) && level == final(self).kinds().len(),
            r matches Err(ExportError::Context(c)) ==> (c == ContextError::NotAnItemList && final(self).out() == old(self).out() && (old(self).kinds().len() == 0 || old(self).kinds().last()
                != OutputType::ListType)),
            (old(self).kinds().len() == 0 || old(self).kinds().last() != OutputType::ListType)
                ==> r == Err::<usize, ExportError>(ExportError::Context(
                ContextError::NotAnItemList,
            )),
            (old(self).sink_accepts() && old(self).kinds().len() > 0 && old(self).kinds().last()
                == OutputType::ListType) ==> r is Ok,
            (old(self).kinds().len() == 0 && r is Err) ==> final(self).kinds() == old(self).kinds()
                && final(self).counts() == old(self).counts(),
            (old(self).kinds().len() > 0 && r is Err) ==> final(self).kinds() == old(self).kinds().drop_last(),
    {
        let count = self.context.item_count();
        let mut buf: Vec<u8> = Vec::new();
        if count == 0 {
            push_list_empty_close(&mut buf, self.style);
        } else {
            match self.style {
                StyleKind::Knr => {
                    push_crlf(&mut buf);
                    push_all(&mut buf, self.context.get_outdent_vec().as_slice());
                    push_list_close(&mut buf, self.style);
                },
                _ => {
                    push_list_close(&mut buf, self.style);
                },
            }
        }
        proof {
            assert(buf@ =~= list_close_text(
                old(self).style(),
                old(self).unit(),
                old(self).kinds().len() as int,
                top_count(old(self).counts()),
            ));
        }
        let level = match self.context.close_list() {
            Ok(l) => l,
            Err(e) => {
                return Err(ExportError::Context(e));
            },
        };
        match self.write_buf(buf.as_slice()) {
            Ok(_) => Ok(level),
            Err(e) => Err(e),
        }
    }

    /// Closes a hash; the mirror image of [`Engine::close_list`].
    pub fn close_hash(&mut self) -> (r: Result<usize, ExportError>)
        requires
            old(self).inv(),
            can_count_parent(old(self).counts()),
        ensures
            final(self).inv(),
            final(self).style() == old(self).style(),
            final(self).unit() == old(self).unit(),
            final(self).sink_accepts() == old(self).sink_accepts(),
            r matches Ok(level) ==> old(self).kinds().len() > 0 && old(self).kinds().last()
                == OutputType::HashType && final(self).out() == old(self).out() + hash_close_text(
                old(self).style(),
                old(self).unit(),
                old(self).kinds().len() as int,
                top_count(old(self).counts()),
            ) && final(self).kinds() == old(self).kinds().drop_last() && final(self).counts()
                == incr_top(old(self).counts().drop_last()) && level == final(self).kinds().len(),
            r matches Err(ExportError::Context(c)) ==> (c == ContextError::NotAnItemHash && final(self).out() == old(self).out() && (old(self).kinds().len() == 0 || old(self).kinds().last()
                != OutputType::HashType)),
            (old(self).kinds().len() == 0 || old(self).kinds().last() != OutputType::HashType)
                ==> r == Err::<usize, ExportError>(ExportError::Context(
                ContextError::NotAnItemHash,
            )),
            (old(self).sink_accepts() && old(self).kinds().len() > 0 && old(self).kinds().last()
                == OutputType::HashType) ==> r is Ok,
            (old(self).kinds().len() == 0 && r is Err) ==> final(self).kinds() == old(self).kinds()
                && final(self).counts() == old(self).counts(),
            (old(self).kinds().len() > 0 && r is Err) ==> final(self).kinds() == old(self).kinds().drop_last(),
    {
        let count = self.context.item_count();
        let mut buf: Vec<u8> = Vec::new();
        if count == 0 {
            push_hash_empty_close(&mut buf, self.style);
        } else {
            match self.style {
                StyleKind::Knr => {
                    push_crlf(&mut buf);
                    push_all(&mut buf, self.context.get_outdent_vec().as_slice());
                    push_hash_close(&mut buf, self.style);
                },
                _ => {
                    push_hash_close(&mut buf, self.style);
                },
            }
        }
        proof {
            assert(buf@ =~= hash_close_text(
                old(self).style(),
                old(self).unit(),
                old(self).kinds().len() as int,
                top_count(old(self).counts()),
            ));
        }
        let level = match self.context.close_hash() {
            Ok(l) => l,
            Err(e) => {
                return Err(ExportError::Context(e));
            },
        };
        match self.write_buf(buf.as_slice()) {
            Ok(_) => Ok(level),
            Err(e) => Err(e),
        }
    }
}

} // verus!
