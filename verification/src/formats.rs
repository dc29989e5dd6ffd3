//! One engine type over all the styles: a closed union of the style
//! engines, dispatching every operation of the common output contract to the
//! chosen style.

use vstd::prelude::*;
use vstd::utf8::encode_utf8;
use crate::context::{
    ContextError, ExportError, OutputType, can_count, can_count_parent, incr_top, top_count,
};
use crate::escape::quote_escape_text;
use crate::sink::ByteSink;
use crate::style::{
    StyleKind, container_open_prefix, hash_close_text, hash_empty_literal, hash_entry_prefix,
    hash_key_bytes, hash_open_tok, list_close_text, list_empty_literal, list_entry_prefix,
    list_open_tok, null_tok, true_tok, false_tok,
};

verus! {

/// A style engine of any of the structural conventions, chosen at run time.
pub enum OutputFormats<W: ByteSink> {
    Compact(crate::compact::JSONFormatCompact<W>),
    Linear(crate::linear::JSONFormatLinear<W>),
    KNR(crate::knr::JSONFormatKNR<W>),
    Allman(crate::allman::JSONFormatAllman<W>),
    Whitesmith(crate::whitesmith::JSONFormatWhitesmith<W>),
    YAML(crate::yaml::YAMLFormat<W>),
}

impl<W: ByteSink> OutputFormats<W> {
    /// The style of the chosen engine.
    pub open spec fn style_of(&self) -> StyleKind {
        match self {
            OutputFormats::Compact(_fmt) => StyleKind::Compact,
            OutputFormats::Linear(_fmt) => StyleKind::Linear,
            OutputFormats::KNR(_fmt) => StyleKind::Knr,
            OutputFormats::Allman(_fmt) => StyleKind::Allman,
            OutputFormats::Whitesmith(_fmt) => StyleKind::Whitesmith,
            OutputFormats::YAML(_fmt) => StyleKind::Yaml,
        }
    }

    /// The bytes written to the sink so far.
    pub open spec fn out(&self) -> Seq<u8> {
        match self {
            OutputFormats::Compact(fmt) => fmt.out(),
            OutputFormats::Linear(fmt) => fmt.out(),
            OutputFormats::KNR(fmt) => fmt.out(),
            OutputFormats::Allman(fmt) => fmt.out(),
            OutputFormats::Whitesmith(fmt) => fmt.out(),
            OutputFormats::YAML(fmt) => fmt.out(),
        }
    }

    /// The kinds of the open container frames.
    pub open spec fn kinds(&self) -> Seq<OutputType> {
        match self {
            OutputFormats::Compact(fmt) => fmt.kinds(),
            OutputFormats::Linear(fmt) => fmt.kinds(),
            OutputFormats::KNR(fmt) => fmt.kinds(),
            OutputFormats::Allman(fmt) => fmt.kinds(),
            OutputFormats::Whitesmith(fmt) => fmt.kinds(),
            OutputFormats::YAML(fmt) => fmt.kinds(),
        }
    }

    /// The element counts of the open container frames.
    pub open spec fn counts(&self) -> Seq<usize> {
        match self {
            OutputFormats::Compact(fmt) => fmt.counts(),
            OutputFormats::Linear(fmt) => fmt.counts(),
            OutputFormats::KNR(fmt) => fmt.counts(),
            OutputFormats::Allman(fmt) => fmt.counts(),
            OutputFormats::Whitesmith(fmt) => fmt.counts(),
            OutputFormats::YAML(fmt) => fmt.counts(),
        }
    }

    /// The indent unit's bytes.
    pub open spec fn unit(&self) -> Seq<u8> {
        match self {
            OutputFormats::Compact(fmt) => fmt.unit(),
            OutputFormats::Linear(fmt) => fmt.unit(),
            OutputFormats::KNR(fmt) => fmt.unit(),
            OutputFormats::Allman(fmt) => fmt.unit(),
            OutputFormats::Whitesmith(fmt) => fmt.unit(),
            OutputFormats::YAML(fmt) => fmt.unit(),
        }
    }

    /// The chosen engine's internal invariant.
    pub open spec fn inv(&self) -> bool {
        match self {
            OutputFormats::Compact(fmt) => fmt.inv(),
            OutputFormats::Linear(fmt) => fmt.inv(),
            OutputFormats::KNR(fmt) => fmt.inv(),
            OutputFormats::Allman(fmt) => fmt.inv(),
            OutputFormats::Whitesmith(fmt) => fmt.inv(),
            OutputFormats::YAML(fmt) => fmt.inv(),
        }
    }

    /// Whether the sink accepts every write; see [`ByteSink::always_accepts`].
    /// When it does, no operation of the chosen engine ever fails with an
    /// I/O error.
    pub open spec fn sink_accepts(&self) -> bool {
        match self {
            OutputFormats::Compact(fmt) => fmt.sink_accepts(),
            OutputFormats::Linear(fmt) => fmt.sink_accepts(),
            OutputFormats::KNR(fmt) => fmt.sink_accepts(),
            OutputFormats::Allman(fmt) => fmt.sink_accepts(),
            OutputFormats::Whitesmith(fmt) => fmt.sink_accepts(),
            OutputFormats::YAML(fmt) => fmt.sink_accepts(),
        }
    }

    /// Opens a list in the chosen style; see the style engines.
    pub fn list_open(&mut self) -> (r: Result<usize, ExportError>)
        requires
            old(self).inv(),
        ensures
            final(self).inv(),
            final(self).style_of() == old(self).style_of(),
            final(self).unit() == old(self).unit(),
            final(self).sink_accepts() == old(self).sink_accepts(),
            r matches Ok(level) ==> final(self).out() == old(self).out() + container_open_prefix(
                old(self).style_of(),
                old(self).kinds(),
                old(self).counts(),
                old(self).unit(),
            ) + list_open_tok(old(self).style_of()) && final(self).kinds() == old(self).kinds().push(
                OutputType::ListType,
            ) && final(self).counts() == old(self).counts().push(0usize) && level == final(self).kinds().len(),
            old(self).sink_accepts() ==> r is Ok,
            r is Err ==> (r matches Err(ExportError::Io(_))) && final(self).kinds() == old(self).kinds() && final(self).counts() == old(self).counts(),
    {
        match self {
            OutputFormats::Compact(fmt) => fmt.list_open(),
            OutputFormats::Linear(fmt) => fmt.list_open(),
            OutputFormats::KNR(fmt) => fmt.list_open(),
            OutputFormats::Allman(fmt) => fmt.list_open(),
            OutputFormats::Whitesmith(fmt) => fmt.list_open(),
            OutputFormats::YAML(fmt) => fmt.list_open(),
        }
    }

    /// Emits the next list element's separator prefix in the chosen style.
    pub fn list_begin_next(&mut self) -> (r: Result<(), ExportError>)
        requires
            old(self).inv(),
        ensures
            final(self).inv(),
            final(self).style_of() == old(self).style_of(),
            final(self).unit() == old(self).unit(),
            final(self).sink_accepts() == old(self).sink_accepts(),
            final(self).kinds() == old(self).kinds(),
            final(self).counts() == old(self).counts(),
            r is Ok ==> final(self).out() == old(self).out() + list_entry_prefix(
                old(self).style_of(),
                old(self).kinds(),
                old(self).counts(),
                old(self).unit(),
            ),
            old(self).sink_accepts() ==> r is Ok,
            r is Err ==> (r matches Err(ExportError::Io(_))),
    {
        match self {
            OutputFormats::Compact(fmt) => fmt.list_begin_next(),
            OutputFormats::Linear(fmt) => fmt.list_begin_next(),
            OutputFormats::KNR(fmt) => fmt.list_begin_next(),
            OutputFormats::Allman(fmt) => fmt.list_begin_next(),
            OutputFormats::Whitesmith(fmt) => fmt.list_begin_next(),
            OutputFormats::YAML(fmt) => fmt.list_begin_next(),
        }
    }

    /// Writes a `null` as a list element in the chosen style.
    pub fn list_write_null(&mut self) -> (r: Result<(), ExportError>)
        requires
            old(self).inv(),
            can_count(old(self).counts()),
        ensures
            final(self).inv(),
            final(self).style_of() == old(self).style_of(),
            final(self).unit() == old(self).unit(),
            final(self).sink_accepts() == old(self).sink_accepts(),
            r is Ok ==> final(self).out() == old(self).out() + list_entry_prefix(
                old(self).style_of(),
                old(self).kinds(),
                old(self).counts(),
                old(self).unit(),
            ) + null_tok() && final(self).kinds() == old(self).kinds() && final(self).counts() == incr_top(old(self).counts()),
            old(self).sink_accepts() ==> r is Ok,
            r is Err ==> (r matches Err(ExportError::Io(_))) && final(self).kinds() == old(self).kinds() && final(self).counts() == old(self).counts(),
    {
        match self {
            OutputFormats::Compact(fmt) => fmt.list_write_null(),
            OutputFormats::Linear(fmt) => fmt.list_write_null(),
            OutputFormats::KNR(fmt) => fmt.list_write_null(),
            OutputFormats::Allman(fmt) => fmt.list_write_null(),
            OutputFormats::Whitesmith(fmt) => fmt.list_write_null(),
            OutputFormats::YAML(fmt) => fmt.list_write_null(),
        }
    }

    /// Writes `true` or `false` as a list element in the chosen style.
    pub fn list_write_bool(&mut self, value: bool) -> (r: Result<(), ExportError>)
        requires
            old(self).inv(),
            can_count(old(self).counts()),
        ensures
            final(self).inv(),
            final(self).style_of() == old(self).style_of(),
            final(self).unit() == old(self).unit(),
            final(self).sink_accepts() == old(self).sink_accepts(),
            r is Ok ==> final(self).out() == old(self).out() + list_entry_prefix(
                old(self).style_of(),
                old(self).kinds(),
                old(self).counts(),
                old(self).unit(),
            ) + (if value {
                true_tok()
            } else {
                false_tok()
            }) && final(self).kinds() == old(self).kinds() && final(self).counts() == incr_top(old(self).counts()),
            old(self).sink_accepts() ==> r is Ok,
            r is Err ==> (r matches Err(ExportError::Io(_))) && final(self).kinds() == old(self).kinds() && final(self).counts() == old(self).counts(),
    {
        match self {
            OutputFormats::Compact(fmt) => fmt.list_write_bool(value),
            OutputFormats::Linear(fmt) => fmt.list_write_bool(value),
            OutputFormats::KNR(fmt) => fmt.list_write_bool(value),
            OutputFormats::Allman(fmt) => fmt.list_write_bool(value),
            OutputFormats::Whitesmith(fmt) => fmt.list_write_bool(value),
            OutputFormats::YAML(fmt) => fmt.list_write_bool(value),
        }
    }

    /// Writes a number's text as a list element in the chosen style.
    pub fn list_write_number(&mut self, value: &String) -> (r: Result<(), ExportError>)
        requires
            old(self).inv(),
            can_count(old(self).counts()),
        ensures
            final(self).inv(),
            final(self).style_of() == old(self).style_of(),
            final(self).unit() == old(self).unit(),
            final(self).sink_accepts() == old(self).sink_accepts(),
            r is Ok ==> final(self).out() == old(self).out() + list_entry_prefix(
                old(self).style_of(),
                old(self).kinds(),
                old(self).counts(),
                old(self).unit(),
            ) + encode_utf8(value@) && final(self).kinds() == old(self).kinds() && final(self).counts() == incr_top(old(self).counts()),
            old(self).sink_accepts() ==> r is Ok,
            r is Err ==> (r matches Err(ExportError::Io(_))) && final(self).kinds() == old(self).kinds() && final(self).counts() == old(self).counts(),
    {
        match self {
            OutputFormats::Compact(fmt) => fmt.list_write_number(value),
            OutputFormats::Linear(fmt) => fmt.list_write_number(value),
            OutputFormats::KNR(fmt) => fmt.list_write_number(value),
            OutputFormats::Allman(fmt) => fmt.list_write_number(value),
            OutputFormats::Whitesmith(fmt) => fmt.list_write_number(value),
            OutputFormats::YAML(fmt) => fmt.list_write_number(value),
        }
    }

    /// Writes a text, quoted and escaped as a list element in the chosen style.
    pub fn list_write_string(&mut self, value: &String) -> (r: Result<(), ExportError>)
        requires
            old(self).inv(),
            can_count(old(self).counts()),
        ensures
            final(self).inv(),
            final(self).style_of() == old(self).style_of(),
            final(self).unit() == old(self).unit(),
            final(self).sink_accepts() == old(self).sink_accepts(),
            r is Ok ==> final(self).out() == old(self).out() + list_entry_prefix(
                old(self).style_of(),
                old(self).kinds(),
                old(self).counts(),
                old(self).unit(),
            ) + encode_utf8(quote_escape_text(value@)) && final(self).kinds() == old(self).kinds() && final(self).counts() == incr_top(old(self).counts()),
            old(self).sink_accepts() ==> r is Ok,
            r is Err ==> (r matches Err(ExportError::Io(_))) && final(self).kinds() == old(self).kinds() && final(self).counts() == old(self).counts(),
    {
        match self {
            OutputFormats::Compact(fmt) => fmt.list_write_string(value),
            OutputFormats::Linear(fmt) => fmt.list_write_string(value),
            OutputFormats::KNR(fmt) => fmt.list_write_string(value),
            OutputFormats::Allman(fmt) => fmt.list_write_string(value),
            OutputFormats::Whitesmith(fmt) => fmt.list_write_string(value),
            OutputFormats::YAML(fmt) => fmt.list_write_string(value),
        }
    }

    /// Writes the fixed empty-list literal as a list element in the chosen style.
    pub fn list_write_empty_list(&mut self) -> (r: Result<(), ExportError>)
        requires
            old(self).inv(),
            can_count(old(self).counts()),
        ensures
            final(self).inv(),
            final(self).style_of() == old(self).style_of(),
            final(self).unit() == old(self).unit(),
            final(self).sink_accepts() == old(self).sink_accepts(),
            r is Ok ==> final(self).out() == old(self).out() + list_entry_prefix(
                old(self).style_of(),
                old(self).kinds(),
                old(self).counts(),
                old(self).unit(),
            ) + list_empty_literal(old(self).style_of()) && final(self).kinds() == old(self).kinds() && final(self).counts() == incr_top(old(self).counts()),
            old(self).sink_accepts() ==> r is Ok,
            r is Err ==> (r matches Err(ExportError::Io(_))) && final(self).kinds() == old(self).kinds() && final(self).counts() == old(self).counts(),
    {
        match self {
            OutputFormats::Compact(fmt) => fmt.list_write_empty_list(),
            OutputFormats::Linear(fmt) => fmt.list_write_empty_list(),
            OutputFormats::KNR(fmt) => fmt.list_write_empty_list(),
            OutputFormats::Allman(fmt) => fmt.list_write_empty_list(),
            OutputFormats::Whitesmith(fmt) => fmt.list_write_empty_list(),
            OutputFormats::YAML(fmt) => fmt.list_write_empty_list(),
        }
    }

    /// Writes the fixed empty-hash literal as a list element in the chosen style.
    pub fn list_write_empty_hash(&mut self) -> (r: Result<(), ExportError>)
        requires
            old(self).inv(),
            can_count(old(self).counts()),
        ensures
            final(self).inv(),
            final(self).style_of() == old(self).style_of(),
            final(self).unit() == old(self).unit(),
            final(self).sink_accepts() == old(self).sink_accepts(),
            r is Ok ==> final(self).out() == old(self).out() + list_entry_prefix(
                old(self).style_of(),
                old(self).kinds(),
                old(self).counts(),
                old(self).unit(),
            ) + hash_empty_literal(old(self).style_of()) && final(self).kinds() == old(self).kinds() && final(self).counts() == incr_top(old(self).counts()),
            old(self).sink_accepts() ==> r is Ok,
            r is Err ==> (r matches Err(ExportError::Io(_))) && final(self).kinds() == old(self).kinds() && final(self).counts() == old(self).counts(),
    {
        match self {
            OutputFormats::Compact(fmt) => fmt.list_write_empty_hash(),
            OutputFormats::Linear(fmt) => fmt.list_write_empty_hash(),
            OutputFormats::KNR(fmt) => fmt.list_write_empty_hash(),
            OutputFormats::Allman(fmt) => fmt.list_write_empty_hash(),
            OutputFormats::Whitesmith(fmt) => fmt.list_write_empty_hash(),
            OutputFormats::YAML(fmt) => fmt.list_write_empty_hash(),
        }
    }

    /// Closes a list in the chosen style; see the style engines.
    pub fn list_close(&mut self) -> (r: Result<usize, ExportError>)
        requires
            old(self).inv(),
            can_count_parent(old(self).counts()),
        ensures
            final(self).inv(),
            final(self).style_of() == old(self).style_of(),
            final(self).unit() == old(self).unit(),
            final(self).sink_accepts() == old(self).sink_accepts(),
            r matches Ok(level) ==> old(self).kinds().len() > 0 && old(self).kinds().last() == OutputType::ListType && final(self).out() == old(self).out() + list_close_text(
                old(self).style_of(),
                old(self).unit(),
                old(self).kinds().len() as int,
                top_count(old(self).counts()),
            ) && final(self).kinds() == old(self).kinds().drop_last() && final(self).counts() == incr_top(old(self).counts().drop_last()) && level == final(self).kinds().len(),
            r matches Err(ExportError::Context(c)) ==> (c == ContextError::NotAnItemList && final(self).out() == old(self).out() && (old(self).kinds().len() == 0 || old(self).kinds().last() != OutputType::ListType)),
            (old(self).kinds().len() == 0 || old(self).kinds().last() != OutputType::ListType)
                ==> r == Err::<usize, ExportError>(ExportError::Context(
                ContextError::NotAnItemList,
            )),
            (old(self).sink_accepts() && old(self).kinds().len() > 0 && old(self).kinds().last() == OutputType::ListType) ==> r is Ok,
            (old(self).kinds().len() == 0 && r is Err) ==> final(self).kinds() == old(self).kinds() && final(self).counts() == old(self).counts(),
            (old(self).kinds().len() > 0 && r is Err) ==> final(self).kinds() == old(self).kinds().drop_last(),
    {
        match self {
            OutputFormats::Compact(fmt) => fmt.list_close(),
            OutputFormats::Linear(fmt) => fmt.list_close(),
            OutputFormats::KNR(fmt) => fmt.list_close(),
            OutputFormats::Allman(fmt) => fmt.list_close(),
            OutputFormats::Whitesmith(fmt) => fmt.list_close(),
            OutputFormats::YAML(fmt) => fmt.list_close(),
        }
    }

    /// Opens a hash in the chosen style; see the style engines.
    pub fn hash_open(&mut self) -> (r: Result<usize, ExportError>)
        requires
            old(self).inv(),
        ensures
            final(self).inv(),
            final(self).style_of() == old(self).style_of(),
            final(self).unit() == old(self).unit(),
            final(self).sink_accepts() == old(self).sink_accepts(),
            r matches Ok(level) ==> final(self).out() == old(self).out() + container_open_prefix(
                old(self).style_of(),
                old(self).kinds(),
                old(self).counts(),
                old(self).unit(),
            ) + hash_open_tok(old(self).style_of()) && final(self).kinds() == old(self).kinds().push(
                OutputType::HashType,
            ) && final(self).counts() == old(self).counts().push(0usize) && level == final(self).kinds().len(),
            old(self).sink_accepts() ==> r is Ok,
            r is Err ==> (r matches Err(ExportError::Io(_))) && final(self).kinds() == old(self).kinds() && final(self).counts() == old(self).counts(),
    {
        match self {
            OutputFormats::Compact(fmt) => fmt.hash_open(),
            OutputFormats::Linear(fmt) => fmt.hash_open(),
            OutputFormats::KNR(fmt) => fmt.hash_open(),
            OutputFormats::Allman(fmt) => fmt.hash_open(),
            OutputFormats::Whitesmith(fmt) => fmt.hash_open(),
            OutputFormats::YAML(fmt) => fmt.hash_open(),
        }
    }

    /// Emits the next hash entry's separator prefix, the quoted key and the
    /// chosen style's colon.
    pub fn hash_begin_next(&mut self, key: &String) -> (r: Result<(), ExportError>)
        requires
            old(self).inv(),
        ensures
            final(self).inv(),
            final(self).style_of() == old(self).style_of(),
            final(self).unit() == old(self).unit(),
            final(self).sink_accepts() == old(self).sink_accepts(),
            final(self).kinds() == old(self).kinds(),
            final(self).counts() == old(self).counts(),
            r is Ok ==> final(self).out() == old(self).out() + hash_entry_prefix(
                old(self).style_of(),
                old(self).kinds(),
                old(self).counts(),
                old(self).unit(),
            ) + hash_key_bytes(old(self).style_of(), key@),
            old(self).sink_accepts() ==> r is Ok,
            r is Err ==> (r matches Err(ExportError::Io(_))),
    {
        match self {
            OutputFormats::Compact(fmt) => fmt.hash_begin_next(key),
            OutputFormats::Linear(fmt) => fmt.hash_begin_next(key),
            OutputFormats::KNR(fmt) => fmt.hash_begin_next(key),
            OutputFormats::Allman(fmt) => fmt.hash_begin_next(key),
            OutputFormats::Whitesmith(fmt) => fmt.hash_begin_next(key),
            OutputFormats::YAML(fmt) => fmt.hash_begin_next(key),
        }
    }

    /// Emits the quoted key and the chosen style's colon, without a
    /// separator.
    pub fn hash_write_key(&mut self, key: &String) -> (r: Result<(), ExportError>)
        requires
            old(self).inv(),
        ensures
            final(self).inv(),
            final(self).style_of() == old(self).style_of(),
            final(self).unit() == old(self).unit(),
            final(self).sink_accepts() == old(self).sink_accepts(),
            final(self).kinds() == old(self).kinds(),
            final(self).counts() == old(self).counts(),
            r is Ok ==> final(self).out() == old(self).out() + hash_key_bytes(old(self).style_of(), key@),
            old(self).sink_accepts() ==> r is Ok,
            r is Err ==> (r matches Err(ExportError::Io(_))),
    {
        match self {
            OutputFormats::Compact(fmt) => fmt.hash_write_key(key),
            OutputFormats::Linear(fmt) => fmt.hash_write_key(key),
            OutputFormats::KNR(fmt) => fmt.hash_write_key(key),
            OutputFormats::Allman(fmt) => fmt.hash_write_key(key),
            OutputFormats::Whitesmith(fmt) => fmt.hash_write_key(key),
            OutputFormats::YAML(fmt) => fmt.hash_write_key(key),
        }
    }

    /// Writes a `null` as a hash entry in the chosen style.
    pub fn hash_write_null(&mut self, key: &String) -> (r: Result<(), ExportError>)
        requires
            old(self).inv(),
            can_count(old(self).counts()),
        ensures
            final(self).inv(),
            final(self).style_of() == old(self).style_of(),
            final(self).unit() == old(self).unit(),
            final(self).sink_accepts() == old(self).sink_accepts(),
            r is Ok ==> final(self).out() == old(self).out() + hash_entry_prefix(
                old(self).style_of(),
                old(self).kinds(),
                old(self).counts(),
                old(self).unit(),
            ) + hash_key_bytes(old(self).style_of(), key@) + null_tok() && final(self).kinds() == old(self).kinds() && final(self).counts() == incr_top(old(self).counts()),
            old(self).sink_accepts() ==> r is Ok,
            r is Err ==> (r matches Err(ExportError::Io(_))) && final(self).kinds() == old(self).kinds() && final(self).counts() == old(self).counts(),
    {
        match self {
            OutputFormats::Compact(fmt) => fmt.hash_write_null(key),
            OutputFormats::Linear(fmt) => fmt.hash_write_null(key),
            OutputFormats::KNR(fmt) => fmt.hash_write_null(key),
            OutputFormats::Allman(fmt) => fmt.hash_write_null(key),
            OutputFormats::Whitesmith(fmt) => fmt.hash_write_null(key),
            OutputFormats::YAML(fmt) => fmt.hash_write_null(key),
        }
    }

    /// Writes `true` or `false` as a hash entry in the chosen style.
    pub fn hash_write_bool(&mut self, key: &String, value: bool) -> (r: Result<(), ExportError>)
        requires
            old(self).inv(),
            can_count(old(self).counts()),
        ensures
            final(self).inv(),
            final(self).style_of() == old(self).style_of(),
            final(self).unit() == old(self).unit(),
            final(self).sink_accepts() == old(self).sink_accepts(),
            r is Ok ==> final(self).out() == old(self).out() + hash_entry_prefix(
                old(self).style_of(),
                old(self).kinds(),
                old(self).counts(),
                old(self).unit(),
            ) + hash_key_bytes(old(self).style_of(), key@) + (if value {
                true_tok()
            } else {
                false_tok()
            }) && final(self).kinds() == old(self).kinds() && final(self).counts() == incr_top(old(self).counts()),
            old(self).sink_accepts() ==> r is Ok,
            r is Err ==> (r matches Err(ExportError::Io(_))) && final(self).kinds() == old(self).kinds() && final(self).counts() == old(self).counts(),
    {
        match self {
            OutputFormats::Compact(fmt) => fmt.hash_write_bool(key, value),
            OutputFormats::Linear(fmt) => fmt.hash_write_bool(key, value),
            OutputFormats::KNR(fmt) => fmt.hash_write_bool(key, value),
            OutputFormats::Allman(fmt) => fmt.hash_write_bool(key, value),
            OutputFormats::Whitesmith(fmt) => fmt.hash_write_bool(key, value),
            OutputFormats::YAML(fmt) => fmt.hash_write_bool(key, value),
        }
    }

    /// Writes a number's text as a hash entry in the chosen style.
    pub fn hash_write_number(&mut self, key: &String, value: &String) -> (r: Result<(), ExportError>)
        requires
            old(self).inv(),
            can_count(old(self).counts()),
        ensures
            final(self).inv(),
            final(self).style_of() == old(self).style_of(),
            final(self).unit() == old(self).unit(),
            final(self).sink_accepts() == old(self).sink_accepts(),
            r is Ok ==> final(self).out() == old(self).out() + hash_entry_prefix(
                old(self).style_of(),
                old(self).kinds(),
                old(self).counts(),
                old(self).unit(),
            ) + hash_key_bytes(old(self).style_of(), key@) + encode_utf8(value@) && final(self).kinds() == old(self).kinds() && final(self).counts() == incr_top(old(self).counts()),
            old(self).sink_accepts() ==> r is Ok,
            r is Err ==> (r matches Err(ExportError::Io(_))) && final(self).kinds() == old(self).kinds() && final(self).counts() == old(self).counts(),
    {
        match self {
            OutputFormats::Compact(fmt) => fmt.hash_write_number(key, value),
            OutputFormats::Linear(fmt) => fmt.hash_write_number(key, value),
            OutputFormats::KNR(fmt) => fmt.hash_write_number(key, value),
            OutputFormats::Allman(fmt) => fmt.hash_write_number(key, value),
            OutputFormats::Whitesmith(fmt) => fmt.hash_write_number(key, value),
            OutputFormats::YAML(fmt) => fmt.hash_write_number(key, value),
        }
    }

    /// Writes a text, quoted and escaped as a hash entry in the chosen style.
    pub fn hash_write_string(&mut self, key: &String, value: &String) -> (r: Result<(), ExportError>)
        requires
            old(self).inv(),
            can_count(old(self).counts()),
        ensures
            final(self).inv(),
            final(self).style_of() == old(self).style_of(),
            final(self).unit() == old(self).unit(),
            final(self).sink_accepts() == old(self).sink_accepts(),
            r is Ok ==> final(self).out() == old(self).out() + hash_entry_prefix(
                old(self).style_of(),
                old(self).kinds(),
                old(self).counts(),
                old(self).unit(),
            ) + hash_key_bytes(old(self).style_of(), key@) + encode_utf8(quote_escape_text(value@)) && final(self).kinds() == old(self).kinds() && final(self).counts() == incr_top(old(self).counts()),
            old(self).sink_accepts() ==> r is Ok,
            r is Err ==> (r matches Err(ExportError::Io(_))) && final(self).kinds() == old(self).kinds() && final(self).counts() == old(self).counts(),
    {
        match self {
            OutputFormats::Compact(fmt) => fmt.hash_write_string(key, value),
            OutputFormats::Linear(fmt) => fmt.hash_write_string(key, value),
            OutputFormats::KNR(fmt) => fmt.hash_write_string(key, value),
            OutputFormats::Allman(fmt) => fmt.hash_write_string(key, value),
            OutputFormats::Whitesmith(fmt) => fmt.hash_write_string(key, value),
            OutputFormats::YAML(fmt) => fmt.hash_write_string(key, value),
        }
    }

    /// Writes the fixed empty-list literal as a hash entry in the chosen style.
    pub fn hash_write_empty_list(&mut self, key: &String) -> (r: Result<(), ExportError>)
        requires
            old(self).inv(),
            can_count(old(self).counts()),
        ensures
            final(self).inv(),
            final(self).style_of() == old(self).style_of(),
            final(self).unit() == old(self).unit(),
            final(self).sink_accepts() == old(self).sink_accepts(),
            r is Ok ==> final(self).out() == old(self).out() + hash_entry_prefix(
                old(self).style_of(),
                old(self).kinds(),
                old(self).counts(),
                old(self).unit(),
            ) + hash_key_bytes(old(self).style_of(), key@) + list_empty_literal(old(self).style_of()) && final(self).kinds() == old(self).kinds() && final(self).counts() == incr_top(old(self).counts()),
            old(self).sink_accepts() ==> r is Ok,
            r is Err ==> (r matches Err(ExportError::Io(_))) && final(self).kinds() == old(self).kinds() && final(self).counts() == old(self).counts(),
    {
        match self {
            OutputFormats::Compact(fmt) => fmt.hash_write_empty_list(key),
            OutputFormats::Linear(fmt) => fmt.hash_write_empty_list(key),
            OutputFormats::KNR(fmt) => fmt.hash_write_empty_list(key),
            OutputFormats::Allman(fmt) => fmt.hash_write_empty_list(key),
            OutputFormats::Whitesmith(fmt) => fmt.hash_write_empty_list(key),
            OutputFormats::YAML(fmt) => fmt.hash_write_empty_list(key),
        }
    }

    /// Writes the fixed empty-hash literal as a hash entry in the chosen style.
    pub fn hash_write_empty_hash(&mut self, key: &String) -> (r: Result<(), ExportError>)
        requires
            old(self).inv(),
            can_count(old(self).counts()),
        ensures
            final(self).inv(),
            final(self).style_of() == old(self).style_of(),
            final(self).unit() == old(self).unit(),
            final(self).sink_accepts() == old(self).sink_accepts(),
            r is Ok ==> final(self).out() == old(self).out() + hash_entry_prefix(
                old(self).style_of(),
                old(self).kinds(),
                old(self).counts(),
                old(self).unit(),
            ) + hash_key_bytes(old(self).style_of(), key@) + hash_empty_literal(old(self).style_of()) && final(self).kinds() == old(self).kinds() && final(self).counts() == incr_top(old(self).counts()),
            old(self).sink_accepts() ==> r is Ok,
            r is Err ==> (r matches Err(ExportError::Io(_))) && final(self).kinds() == old(self).kinds() && final(self).counts() == old(self).counts(),
    {
        match self {
            OutputFormats::Compact(fmt) => fmt.hash_write_empty_hash(key),
            OutputFormats::Linear(fmt) => fmt.hash_write_empty_hash(key),
            OutputFormats::KNR(fmt) => fmt.hash_write_empty_hash(key),
            OutputFormats::Allman(fmt) => fmt.hash_write_empty_hash(key),
            OutputFormats::Whitesmith(fmt) => fmt.hash_write_empty_hash(key),
            OutputFormats::YAML(fmt) => fmt.hash_write_empty_hash(key),
        }
    }

    /// Closes a hash in the chosen style; see the style engines.
    pub fn hash_close(&mut self) -> (r: Result<usize, ExportError>)
        requires
            old(self).inv(),
            can_count_parent(old(self).counts()),
        ensures
            final(self).inv(),
            final(self).style_of() == old(self).style_of(),
            final(self).unit() == old(self).unit(),
            final(self).sink_accepts() == old(self).sink_accepts(),
            r matches Ok(level) ==> old(self).kinds().len() > 0 && old(self).kinds().last() == OutputType::HashType && final(self).out() == old(self).out() + hash_close_text(
                old(self).style_of(),
                old(self).unit(),
                old(self).kinds().len() as int,
                top_count(old(self).counts()),
            ) && final(self).kinds() == old(self).kinds().drop_last() && final(self).counts() == incr_top(old(self).counts().drop_last()) && level == final(self).kinds().len(),
            r matches Err(ExportError::Context(c)) ==> (c == ContextError::NotAnItemHash && final(self).out() == old(self).out() && (old(self).kinds().len() == 0 || old(self).kinds().last() != OutputType::HashType)),
            (old(self).kinds().len() == 0 || old(self).kinds().last() != OutputType::HashType)
                ==> r == Err::<usize, ExportError>(ExportError::Context(
                ContextError::NotAnItemHash,
            )),
            (old(self).sink_accepts() && old(self).kinds().len() > 0 && old(self).kinds().last() == OutputType::HashType) ==> r is Ok,
            (old(self).kinds().len() == 0 && r is Err) ==> final(self).kinds() == old(self).kinds() && final(self).counts() == old(self).counts(),
            (old(self).kinds().len() > 0 && r is Err) ==> final(self).kinds() == old(self).kinds().drop_last(),
    {
        match self {
            OutputFormats::Compact(fmt) => fmt.hash_close(),
            OutputFormats::Linear(fmt) => fmt.hash_close(),
            OutputFormats::KNR(fmt) => fmt.hash_close(),
            OutputFormats::Allman(fmt) => fmt.hash_close(),
            OutputFormats::Whitesmith(fmt) => fmt.hash_close(),
            OutputFormats::YAML(fmt) => fmt.hash_close(),
        }
    }

    /// Hands the sink back, consuming the engine.
    pub fn into_writer(self) -> (r: W)
        ensures
            r.sink_bytes() == self.out(),
            r.always_accepts() == self.sink_accepts(),
    {
        match self {
            OutputFormats::Compact(fmt) => fmt.into_writer(),
            OutputFormats::Linear(fmt) => fmt.into_writer(),
            OutputFormats::KNR(fmt) => fmt.into_writer(),
            OutputFormats::Allman(fmt) => fmt.into_writer(),
            OutputFormats::Whitesmith(fmt) => fmt.into_writer(),
            OutputFormats::YAML(fmt) => fmt.into_writer(),
        }
    }
}

} // verus!
