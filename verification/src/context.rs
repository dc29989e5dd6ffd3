//! The export context: the nesting-aware state machine behind every style
//! engine.
//!
//! The state is a stack with one frame per currently-open container: the
//! frame's kind (list or hash) and how many elements have been written into
//! it so far. Closing a container pops its frame, checks the kind against
//! the call, and counts the closed container as one element of its parent.
//! [`StructuredExportContext`] adds a lazily-built indentation cache: the
//! indent text of depth `n` is built once, as one indent unit prepended to
//! the text of depth `n - 1`, and reused ever after.

use vstd::prelude::*;
use crate::sink::{ByteSink, SinkError, push_all};

verus! {

/// The kind of an open container frame.
#[derive(Debug, Copy, Clone, PartialEq, Eq, Structural)]
pub enum OutputType {
    ListType,
    HashType,
}

/// A mismatched open/close pair: the closed frame was not of the kind the
/// call named. Always a caller error, never retried.
#[derive(Debug, Copy, Clone, PartialEq, Eq, Structural)]
pub enum ContextError {
    NotAnItemList,
    NotAnItemHash,
}

/// A failed export step: the sink refused a write, or the context detected a
/// mismatched open/close. Both abort the serialization call; the document
/// tree is never touched by serialization.
#[derive(Debug, Copy, Clone, PartialEq, Eq, Structural)]
pub enum ExportError {
    Io(SinkError),
    Context(ContextError),
}

/// The element count of the innermost open container; 0 with no open frame.
pub open spec fn top_count(counts: Seq<usize>) -> nat {
    if counts.len() == 0 {
        0
    } else {
        counts.last() as nat
    }
}

/// The counts after the innermost open container gains one element.
pub open spec fn incr_top(counts: Seq<usize>) -> Seq<usize> {
    if counts.len() == 0 {
        counts
    } else {
        counts.update(counts.len() - 1, (counts.last() + 1) as usize)
    }
}

/// The innermost count can gain one element without overflowing.
pub open spec fn can_count(counts: Seq<usize>) -> bool {
    counts.len() > 0 ==> counts.last() < usize::MAX
}

/// The count below the innermost one can gain one element (a close adds the
/// closed container to its parent's count).
pub open spec fn can_count_parent(counts: Seq<usize>) -> bool {
    counts.len() >= 2 ==> counts[counts.len() - 2] < usize::MAX
}

/// `n` copies of the indent unit.
pub open spec fn indent_text(unit: Seq<u8>, n: int) -> Seq<u8>
    decreases n,
{
    if n <= 0 {
        Seq::empty()
    } else {
        unit + indent_text(unit, n - 1)
    }
}

/// The context operations shared by the simple and the structured variant.
/// The state is modelled by the stack of frame kinds and the stack of
/// element counts, always of equal length.
pub trait ExportContext {
    /// The kinds of the open frames, outermost first.
    spec fn kinds(&self) -> Seq<OutputType>;

    /// The element counts of the open frames, outermost first.
    spec fn counts(&self) -> Seq<usize>;

    /// The internal invariant of the context.
    spec fn inv(&self) -> bool;

    /// The current depth: how many containers are open.
    fn get_stack_level(&self) -> (r: usize)
        requires
            self.inv(),
        ensures
            r == self.kinds().len(),
    ;

    /// The element count of the innermost open container.
    fn get_item_count(&self) -> (r: usize)
        requires
            self.inv(),
        ensures
            r as nat == top_count(self.counts()),
    ;

    /// Counts one more element in the innermost open container (no effect
    /// with no open frame).
    fn incr_item_count(&mut self)
        requires
            old(self).inv(),
            can_count(old(self).counts()),
        ensures
            final(self).inv(),
            final(self).kinds() == old(self).kinds(),
            final(self).counts() == incr_top(old(self).counts()),
    ;

    /// Opens a hash frame with count 0; returns the new depth.
    fn hash_begin(&mut self) -> (r: usize)
        requires
            old(self).inv(),
        ensures
            final(self).inv(),
            final(self).kinds() == old(self).kinds().push(OutputType::HashType),
            final(self).counts() == old(self).counts().push(0usize),
            r == final(self).kinds().len(),
    ;

    /// Pops the innermost frame, which must be a hash frame: on a list frame
    /// or an empty stack the call fails with
    /// [`ContextError::NotAnItemHash`] (the frame, if any, is popped either
    /// way). On success the closed hash counts as one element of the new
    /// innermost frame, and the new depth is returned.
    fn hash_end(&mut self) -> (r: Result<usize, ContextError>)
        requires
            old(self).inv(),
            can_count_parent(old(self).counts()),
        ensures
            final(self).inv(),
            old(self).kinds().len() == 0 ==> r == Err::<usize, ContextError>(
                ContextError::NotAnItemHash,
            ) && final(self).kinds() == old(self).kinds() && final(self).counts() == old(self).counts(),
            old(self).kinds().len() > 0 ==> final(self).kinds() == old(self).kinds().drop_last(),
            (old(self).kinds().len() > 0 && old(self).kinds().last() == OutputType::HashType)
                ==> (r matches Ok(l) && l == final(self).kinds().len() && final(self).counts()
                == incr_top(old(self).counts().drop_last())),
            (old(self).kinds().len() > 0 && old(self).kinds().last() != OutputType::HashType)
                ==> r == Err::<usize, ContextError>(ContextError::NotAnItemHash) && final(self).counts() == old(self).counts().drop_last(),
    ;

    /// Opens a list frame with count 0; returns the new depth.
    fn list_begin(&mut self) -> (r: usize)
        requires
            old(self).inv(),
        ensures
            final(self).inv(),
            final(self).kinds() == old(self).kinds().push(OutputType::ListType),
            final(self).counts() == old(self).counts().push(0usize),
            r == final(self).kinds().len(),
    ;

    /// Pops the innermost frame, which must be a list frame; the mirror
    /// image of [`ExportContext::hash_end`], failing with
    /// [`ContextError::NotAnItemList`].
    fn list_end(&mut self) -> (r: Result<usize, ContextError>)
        requires
            old(self).inv(),
            can_count_parent(old(self).counts()),
        ensures
            final(self).inv(),
            old(self).kinds().len() == 0 ==> r == Err::<usize, ContextError>(
                ContextError::NotAnItemList,
            ) && final(self).kinds() == old(self).kinds() && final(self).counts() == old(self).counts(),
            old(self).kinds().len() > 0 ==> final(self).kinds() == old(self).kinds().drop_last(),
            (old(self).kinds().len() > 0 && old(self).kinds().last() == OutputType::ListType)
                ==> (r matches Ok(l) && l == final(self).kinds().len() && final(self).counts()
                == incr_top(old(self).counts().drop_last())),
            (old(self).kinds().len() > 0 && old(self).kinds().last() != OutputType::ListType)
                ==> r == Err::<usize, ContextError>(ContextError::NotAnItemList) && final(self).counts() == old(self).counts().drop_last(),
    ;

    /// Whether the innermost open frame is a hash frame.
    fn is_hash(&self) -> (r: bool)
        requires
            self.inv(),
        ensures
            r == (self.kinds().len() > 0 && self.kinds().last() == OutputType::HashType),
    ;

    /// Whether the innermost open frame is a list frame.
    fn is_list(&self) -> (r: bool)
        requires
            self.inv(),
        ensures
            r == (self.kinds().len() > 0 && self.kinds().last() == OutputType::ListType),
    ;

    /// Whether the innermost open container has no elements yet (true with
    /// no open frame).
    fn is_first(&self) -> (r: bool)
        requires
            self.inv(),
        ensures
            r == (top_count(self.counts()) == 0),
    ;

    /// Whether the depth is at most one.
    fn is_top_level(&self) -> (r: bool)
        requires
            self.inv(),
        ensures
            r == (self.kinds().len() <= 1),
    ;

    /// Whether the parent frame (one below the innermost) is a list frame;
    /// false at depth below two.
    fn is_within_list(&self) -> (r: bool)
        requires
            self.inv(),
        ensures
            r == (self.kinds().len() >= 2 && self.kinds()[self.kinds().len() - 2]
                == OutputType::ListType),
    ;

    /// Whether the parent frame (one below the innermost) is a hash frame;
    /// false at depth below two.
    fn is_within_hash(&self) -> (r: bool)
        requires
            self.inv(),
        ensures
            r == (self.kinds().len() >= 2 && self.kinds()[self.kinds().len() - 2]
                == OutputType::HashType),
    ;
}

/// The plain context: the frame stack alone, used by the single-line styles.
pub struct SimpleExportContext {
    stk_type: Vec<OutputType>,
    stk_count: Vec<usize>,
}

impl SimpleExportContext {
    /// Builds a context with no open frame.
    pub fn new() -> (r: SimpleExportContext)
        ensures
            r.kinds() == Seq::<OutputType>::empty(),
            r.counts() == Seq::<usize>::empty(),
            r.inv(),
    {
        SimpleExportContext { stk_type: Vec::new(), stk_count: Vec::new() }
    }
}

impl ExportContext for SimpleExportContext {
    closed spec fn kinds(&self) -> Seq<OutputType> {
        self.stk_type@
    }

    closed spec fn counts(&self) -> Seq<usize> {
        self.stk_count@
    }

    closed spec fn inv(&self) -> bool {
        self.stk_type@.len() == self.stk_count@.len()
    }

    fn get_stack_level(&self) -> (r: usize) {
        self.stk_type.len()
    }

    fn get_item_count(&self) -> (r: usize) {
        let n = self.stk_count.len();
        if n == 0 {
            0
        } else {
            self.stk_count[n - 1]
        }
    }

    fn incr_item_count(&mut self) {
        let n = self.stk_count.len();
        if n > 0 {
            let count = self.stk_count[n - 1];
            self.stk_count[n - 1] = count + 1;
        }
    }

    fn hash_begin(&mut self) -> (r: usize) {
        self.stk_type.push(OutputType::HashType);
        self.stk_count.push(0);
        self.stk_type.len()
    }

    fn hash_end(&mut self) -> (r: Result<usize, ContextError>) {
        self.stk_count.pop();
        match self.stk_type.pop() {
            Some(OutputType::HashType) => {
                self.incr_item_count();
                Ok(self.stk_type.len())
            },
            _ => Err(ContextError::NotAnItemHash),
        }
    }

    fn list_begin(&mut self) -> (r: usize) {
        self.stk_type.push(OutputType::ListType);
        self.stk_count.push(0);
        self.stk_type.len()
    }

    fn list_end(&mut self) -> (r: Result<usize, ContextError>) {
        self.stk_count.pop();
        match self.stk_type.pop() {
            Some(OutputType::ListType) => {
                self.incr_item_count();
                Ok(self.stk_type.len())
            },
            _ => Err(ContextError::NotAnItemList),
        }
    }

    fn is_hash(&self) -> (r: bool) {
        let n = self.stk_type.len();
        n > 0 && self.stk_type[n - 1] == OutputType::HashType
    }

    fn is_list(&self) -> (r: bool) {
        let n = self.stk_type.len();
        n > 0 && self.stk_type[n - 1] == OutputType::ListType
    }

    fn is_first(&self) -> (r: bool) {
        let n = self.stk_count.len();
        n == 0 || self.stk_count[n - 1] == 0
    }

    fn is_top_level(&self) -> (r: bool) {
        self.stk_type.len() <= 1
    }

    fn is_within_list(&self) -> (r: bool) {
        let n = self.stk_type.len();
        n >= 2 && self.stk_type[n - 2] == OutputType::ListType
    }

    fn is_within_hash(&self) -> (r: bool) {
        let n = self.stk_type.len();
        n >= 2 && self.stk_type[n - 2] == OutputType::HashType
    }
}

/// The structured context: the frame stack plus a depth-indexed cache of
/// indent texts, used by the styles that indent. The cache entry for depth
/// `n` is built once, by prepending the indent unit to the entry for depth
/// `n - 1`, and is never recomputed.
pub struct StructuredExportContext {
    context: SimpleExportContext,
    str_indent: Vec<u8>,
    stk_indent: Vec<Vec<u8>>,
    vec_empty: Vec<u8>,
}

impl StructuredExportContext {
    /// The indent unit's bytes.
    pub closed spec fn unit(&self) -> Seq<u8> {
        self.str_indent@
    }

    /// The kinds of the open frames, outermost first.
    pub closed spec fn skinds(&self) -> Seq<OutputType> {
        self.context.kinds()
    }

    /// The element counts of the open frames, outermost first.
    pub closed spec fn scounts(&self) -> Seq<usize> {
        self.context.counts()
    }

    /// The internal invariant: the frame stacks agree in length, and the
    /// cache holds the correct indent text for every depth it covers, at
    /// least up to the current depth.
    pub closed spec fn sinv(&self) -> bool {
        &&& self.context.inv()
        &&& self.vec_empty@ == Seq::<u8>::empty()
        &&& self.stk_indent@.len() >= self.skinds().len()
        &&& forall|i: int|
            0 <= i < self.stk_indent@.len() ==> (#[trigger] self.stk_indent@[i])@ == indent_text(
                self.unit(),
                i + 1,
            )
    }

    /// Builds a context with no open frame. The indent unit defaults to a
    /// tab when none is given.
    pub fn new(indent: Option<String>) -> (r: StructuredExportContext)
        ensures
            r.skinds() == Seq::<OutputType>::empty(),
            r.scounts() == Seq::<usize>::empty(),
            r.sinv(),
            r.unit() == (match indent {
                Some(s) => vstd::utf8::encode_utf8(s@),
                None => seq![('\t' as u8)],
            }),
    {
        let mut unit: Vec<u8> = Vec::new();
        match &indent {
            Some(s) => {
                push_all(&mut unit, s.as_str().as_bytes());
                proof {
                    assert(unit@ =~= vstd::utf8::encode_utf8(s@));
                }
            },
            None => {
                unit.push('\t' as u8);
                proof {
                    assert(unit@ =~= seq![('\t' as u8)]);
                }
            },
        }
        StructuredExportContext {
            context: SimpleExportContext::new(),
            str_indent: unit,
            stk_indent: Vec::new(),
            vec_empty: Vec::new(),
        }
    }

    /// Grows the indent cache up to the current depth; entries beyond it are
    /// kept (they stay correct and will be reused).
    fn adjust_indent(&mut self)
        requires
            old(self).sinv() || (old(self).context.inv() && old(self).vec_empty@ == Seq::<
                u8,
            >::empty() && (forall|i: int|
                0 <= i < old(self).stk_indent@.len() ==> (#[trigger] old(self).stk_indent@[i])@
                    == indent_text(old(self).unit(), i + 1))),
        ensures
            final(self).sinv(),
            final(self).unit() == old(self).unit(),
            final(self).skinds() == old(self).skinds(),
            final(self).scounts() == old(self).scounts(),
    {
        let level = self.context.get_stack_level();
        while self.stk_indent.len() < level
            invariant
                self.context.inv(),
                self.vec_empty@ == Seq::<u8>::empty(),
                self.context == old(self).context,
                self.str_indent == old(self).str_indent,
                level == self.skinds().len(),
                forall|i: int|
                    0 <= i < self.stk_indent@.len() ==> (#[trigger] self.stk_indent@[i])@
                        == indent_text(self.unit(), i + 1),
            decreases level - self.stk_indent.len(),
        {
            let n = self.stk_indent.len();
            let mut next: Vec<u8> = Vec::new();
            push_all(&mut next, self.str_indent.as_slice());
            if n > 0 {
                push_all(&mut next, self.stk_indent[n - 1].as_slice());
            }
            proof {
                if n == 0 {
                    assert(indent_text(self.unit(), 0) == Seq::<u8>::empty());
                    assert(next@ =~= indent_text(self.unit(), 1));
                } else {
                    assert(next@ =~= indent_text(self.unit(), n + 1));
                }
            }
            self.stk_indent.push(next);
        }
    }

    /// The cached indent text for the current depth: one unit per open
    /// container.
    pub fn get_indent_vec(&self) -> (r: &Vec<u8>)
        requires
            self.sinv(),
        ensures
            r@ == indent_text(self.unit(), self.skinds().len() as int),
    {
        let level = self.context.get_stack_level();
        if level == 0 {
            proof {
                assert(indent_text(self.unit(), 0) == Seq::<u8>::empty());
            }
            &self.vec_empty
        } else {
            &self.stk_indent[level - 1]
        }
    }

    /// The cached indent text for the parent depth (the text written just
    /// before a closing bracket): one unit fewer than the current depth.
    pub fn get_outdent_vec(&self) -> (r: &Vec<u8>)
        requires
            self.sinv(),
        ensures
            r@ == indent_text(self.unit(), self.skinds().len() as int - 1),
    {
        let level = self.context.get_stack_level();
        if level <= 1 {
            proof {
                assert(indent_text(self.unit(), self.skinds().len() as int - 1) == Seq::<
                    u8,
                >::empty());
            }
            &self.vec_empty
        } else {
            &self.stk_indent[level - 2]
        }
    }

    /// Writes the current depth's indent text to the sink (nothing at depth
    /// zero).
    pub fn write_indent<W: ByteSink>(&self, writer: &mut W) -> (r: Result<(), ExportError>)
        requires
            self.sinv(),
        ensures
            r is Ok ==> final(writer).sink_bytes() == old(writer).sink_bytes() + indent_text(
                self.unit(),
                self.skinds().len() as int,
            ),
            r is Err ==> (r matches Err(ExportError::Io(_))),
    {
        let indent = self.get_indent_vec();
        if indent.len() > 0 {
            match writer.write_bytes(indent.as_slice()) {
                Ok(_) => Ok(()),
                Err(e) => Err(ExportError::Io(e)),
            }
        } else {
            proof {
                assert(old(writer).sink_bytes() + indent_text(
                    self.unit(),
                    self.skinds().len() as int,
                ) =~= old(writer).sink_bytes());
            }
            Ok(())
        }
    }

    /// The current depth; see [`ExportContext::get_stack_level`].
    pub fn level(&self) -> (r: usize)
        requires
            self.sinv(),
        ensures
            r == self.skinds().len(),
    {
        self.context.get_stack_level()
    }

    /// The innermost element count; see [`ExportContext::get_item_count`].
    pub fn item_count(&self) -> (r: usize)
        requires
            self.sinv(),
        ensures
            r as nat == top_count(self.scounts()),
    {
        self.context.get_item_count()
    }

    /// Counts one more element; see [`ExportContext::incr_item_count`].
    pub fn count_item(&mut self)
        requires
            old(self).sinv(),
            can_count(old(self).scounts()),
        ensures
            final(self).sinv(),
            final(self).unit() == old(self).unit(),
            final(self).skinds() == old(self).skinds(),
            final(self).scounts() == incr_top(old(self).scounts()),
    {
        self.context.incr_item_count();
    }

    /// Opens a list frame; see [`ExportContext::list_begin`].
    pub fn open_list(&mut self) -> (r: usize)
        requires
            old(self).sinv(),
        ensures
            final(self).sinv(),
            final(self).unit() == old(self).unit(),
            final(self).skinds() == old(self).skinds().push(OutputType::ListType),
            final(self).scounts() == old(self).scounts().push(0usize),
            r == final(self).skinds().len(),
    {
        let level = self.context.list_begin();
        self.adjust_indent();
        level
    }

    /// Opens a hash frame; see [`ExportContext::hash_begin`].
    pub fn open_hash(&mut self) -> (r: usize)
        requires
            old(self).sinv(),
        ensures
            final(self).sinv(),
            final(self).unit() == old(self).unit(),
            final(self).skinds() == old(self).skinds().push(OutputType::HashType),
            final(self).scounts() == old(self).scounts().push(0usize),
            r == final(self).skinds().len(),
    {
        let level = self.context.hash_begin();
        self.adjust_indent();
        level
    }

    /// Closes a list frame; see [`ExportContext::list_end`].
    pub fn close_list(&mut self) -> (r: Result<usize, ContextError>)
        requires
            old(self).sinv(),
            can_count_parent(old(self).scounts()),
        ensures
            final(self).sinv(),
            final(self).unit() == old(self).unit(),
            old(self).skinds().len() == 0 ==> r == Err::<usize, ContextError>(
                ContextError::NotAnItemList,
            ) && final(self).skinds() == old(self).skinds() && final(self).scounts() == old(self).scounts(),
            old(self).skinds().len() > 0 ==> final(self).skinds() == old(self).skinds().drop_last(),
            (old(self).skinds().len() > 0 && old(self).skinds().last() == OutputType::ListType)
                ==> (r matches Ok(l) && l == final(self).skinds().len() && final(self).scounts()
                == incr_top(old(self).scounts().drop_last())),
            (old(self).skinds().len() > 0 && old(self).skinds().last() != OutputType::ListType)
                ==> r == Err::<usize, ContextError>(ContextError::NotAnItemList) && final(self).scounts() == old(self).scounts().drop_last(),
    {
        self.context.list_end()
    }

    /// Closes a hash frame; see [`ExportContext::hash_end`].
    pub fn close_hash(&mut self) -> (r: Result<usize, ContextError>)
        requires
            old(self).sinv(),
            can_count_parent(old(self).scounts()),
        ensures
            final(self).sinv(),
            final(self).unit() == old(self).unit(),
            old(self).skinds().len() == 0 ==> r == Err::<usize, ContextError>(
                ContextError::NotAnItemHash,
            ) && final(self).skinds() == old(self).skinds() && final(self).scounts() == old(self).scounts(),
            old(self).skinds().len() > 0 ==> final(self).skinds() == old(self).skinds().drop_last(),
            (old(self).skinds().len() > 0 && old(self).skinds().last() == OutputType::HashType)
                ==> (r matches Ok(l) && l == final(self).skinds().len() && final(self).scounts()
                == incr_top(old(self).scounts().drop_last())),
            (old(self).skinds().len() > 0 && old(self).skinds().last() != OutputType::HashType)
                ==> r == Err::<usize, ContextError>(ContextError::NotAnItemHash) && final(self).scounts() == old(self).scounts().drop_last(),
    {
        self.context.hash_end()
    }

    /// Whether the innermost open frame is a list frame.
    pub fn top_is_list(&self) -> (r: bool)
        requires
            self.sinv(),
        ensures
            r == (self.skinds().len() > 0 && self.skinds().last() == OutputType::ListType),
    {
        self.context.is_list()
    }

    /// Whether the innermost open frame is a hash frame.
    pub fn top_is_hash(&self) -> (r: bool)
        requires
            self.sinv(),
        ensures
            r == (self.skinds().len() > 0 && self.skinds().last() == OutputType::HashType),
    {
        self.context.is_hash()
    }

    /// Whether the innermost open container has no elements yet.
    pub fn top_is_first(&self) -> (r: bool)
        requires
            self.sinv(),
        ensures
            r == (top_count(self.scounts()) == 0),
    {
        self.context.is_first()
    }

    /// Whether the depth is at most one.
    pub fn at_top_level(&self) -> (r: bool)
        requires
            self.sinv(),
        ensures
            r == (self.skinds().len() <= 1),
    {
        self.context.is_top_level()
    }

    /// Writes the parent depth's indent text to the sink (nothing at depth
    /// one or zero).
    pub fn write_outdent<W: ByteSink>(&self, writer: &mut W) -> (r: Result<(), ExportError>)
        requires
            self.sinv(),
        ensures
            r is Ok ==> final(writer).sink_bytes() == old(writer).sink_bytes() + indent_text(
                self.unit(),
                self.skinds().len() as int - 1,
            ),
            r is Err ==> (r matches Err(ExportError::Io(_))),
    {
        let outdent = self.get_outdent_vec();
        if outdent.len() > 0 {
            match writer.write_bytes(outdent.as_slice()) {
                Ok(_) => Ok(()),
                Err(e) => Err(ExportError::Io(e)),
            }
        } else {
            proof {
                assert(old(writer).sink_bytes() + indent_text(
                    self.unit(),
                    self.skinds().len() as int - 1,
                ) =~= old(writer).sink_bytes());
            }
            Ok(())
        }
    }
}

impl ExportContext for StructuredExportContext {
    closed spec fn kinds(&self) -> Seq<OutputType> {
        self.skinds()
    }

    closed spec fn counts(&self) -> Seq<usize> {
        self.scounts()
    }

    closed spec fn inv(&self) -> bool {
        self.sinv()
    }

    fn get_stack_level(&self) -> (r: usize) {
        self.level()
    }

    fn get_item_count(&self) -> (r: usize) {
        self.item_count()
    }

    fn incr_item_count(&mut self) {
        self.count_item();
    }

    fn hash_begin(&mut self) -> (r: usize) {
        self.open_hash()
    }

    fn hash_end(&mut self) -> (r: Result<usize, ContextError>) {
        self.close_hash()
    }

    fn list_begin(&mut self) -> (r: usize) {
        self.open_list()
    }

    fn list_end(&mut self) -> (r: Result<usize, ContextError>) {
        self.close_list()
    }

    fn is_hash(&self) -> (r: bool) {
        self.top_is_hash()
    }

    fn is_list(&self) -> (r: bool) {
        self.top_is_list()
    }

    fn is_first(&self) -> (r: bool) {
        self.top_is_first()
    }

    fn is_top_level(&self) -> (r: bool) {
        self.at_top_level()
    }

    fn is_within_list(&self) -> (r: bool) {
        self.context.is_within_list()
    }

    fn is_within_hash(&self) -> (r: bool) {
        self.context.is_within_hash()
    }
}

} // verus!
