//! The execution data that the engine hands to a function when it calls it:
//! the frame's header, and behind it the arguments, one slot each.

use vstd::prelude::*;
use vstd::arithmetic::power2::lemma2_to64;
use vstd::std_specs::convert::TryFromSpec;
use crate::bindings::{
    ZendClassEntry, ZendObject, ZEND_EXECUTE_DATA_SIZE, ZEND_MM_ALIGNMENT, ZEND_MM_ALIGNMENT_MASK,
    ZVAL_SIZE,
};
use crate::php::alignment::{
    is_power_of_two, lemma_mask_rounds_down, lemma_round_up_is_next_multiple, round_up, slots_for,
};
use crate::php::types::zval::{zval_views, Zval, ZvalView};

verus! {

/// `size` rounded up as the engine's memory manager rounds it.
pub open spec fn mm_aligned(size: int) -> int {
    round_up(size, ZEND_MM_ALIGNMENT as int)
}

/// The number of slots that the header of a frame takes up, in the engine that
/// `bindings` describes.
pub open spec fn call_frame_slot() -> int {
    slots_for(ZEND_EXECUTE_DATA_SIZE as int, ZVAL_SIZE as int, ZEND_MM_ALIGNMENT as int)
}

/// The engine's alignment is a power of two, and its mask is the one that
/// clears the bits below it.
pub proof fn lemma_mm_alignment()
    ensures
        is_power_of_two(ZEND_MM_ALIGNMENT as int),
        ZEND_MM_ALIGNMENT_MASK == !((ZEND_MM_ALIGNMENT - 1) as usize),
{
    lemma2_to64();
    assert(ZEND_MM_ALIGNMENT as int == vstd::arithmetic::power2::pow2(3));
}

/// Whatever two calls of `zend_call_frame_slot` return, it is the same count:
/// that of the engine which `bindings` describes, whose header takes up five
/// slots.
pub proof fn lemma_zend_call_frame_slot_is_constant(first: usize, second: usize)
    requires
        call_ensures(ExecutionData::zend_call_frame_slot, (), first),
        call_ensures(ExecutionData::zend_call_frame_slot, (), second),
    ensures
        first == second,
        first == call_frame_slot(),
        first == 5,
{
}

/// One slot of a frame's memory, counted from the frame's base in units of
/// one value.
#[derive(Debug, PartialEq, Eq)]
enum FrameSlot {
    /// A part of the header: no value can be read here.
    Header,
    /// A value that the engine has put behind the header.
    Value(Zval),
}

/// What is asked of the engine to read a property of the object on which a
/// method was called.
#[derive(Debug, PartialEq, Eq)]
pub struct PropertyQuery {
    /// The class from which the property is read.
    pub scope: ZendClassEntry,
    /// The object that holds the property.
    pub object: ZendObject,
    /// The property's name.
    pub name: String,
    /// Whether the engine keeps quiet about a property that is not there.
    pub silent: bool,
}

/// What a `PropertyQuery` stands for.
pub struct PropertyQueryView {
    pub scope: ZendClassEntry,
    pub object: ZendObject,
    pub name: Seq<char>,
    pub silent: bool,
}

impl View for PropertyQuery {
    type V = PropertyQueryView;

    open spec fn view(&self) -> PropertyQueryView {
        PropertyQueryView {
            scope: self.scope,
            object: self.object,
            name: self.name@,
            silent: self.silent,
        }
    }
}

/// Execution data passed when a function is called from Zend.
#[derive(Debug, PartialEq, Eq)]
pub struct ExecutionData {
    scope: Option<ZendClassEntry>,
    this: Zval,
    slots: Vec<FrameSlot>,
}

impl ExecutionData {
    /// The header comes first and takes up `call_frame_slot()` slots; every
    /// slot behind it holds a value.
    #[verifier::type_invariant]
    spec fn layout_holds(self) -> bool {
        &&& self.slots.len() >= call_frame_slot()
        &&& forall|i: int| 0 <= i < call_frame_slot() ==> self.slots[i] is Header
        &&& forall|i: int| call_frame_slot() <= i < self.slots.len() ==> self.slots[i] is Value
    }

    /// The class that the called function belongs to, if it is a method.
    pub closed spec fn scope(self) -> Option<ZendClassEntry> {
        self.scope
    }

    /// The value on which the function was called.
    pub closed spec fn this(self) -> ZvalView {
        self.this@
    }

    /// The arguments that the engine supplied, in their order.
    pub closed spec fn args(self) -> Seq<ZvalView> {
        Seq::new(
            (self.slots.len() - call_frame_slot()) as nat,
            |i: int| self.slots[call_frame_slot() + i]->Value_0@,
        )
    }

    /// The value in argument slot `n`.
    pub closed spec fn arg(self, n: int) -> Zval {
        self.slots[call_frame_slot() + n]->Value_0
    }

    /// The object and class that a property is read from: there is one where
    /// the function is a method and was called on an object.
    pub open spec fn receiver(self) -> Option<(ZendClassEntry, ZendObject)> {
        match (self.scope(), self.this()) {
            (Some(scope), ZvalView::Object(object)) => Some((scope, object)),
            _ => None,
        }
    }

    /// The frame of a call with the arguments `args` on the value `this`, of a
    /// function that belongs to the class `scope` if it is a method.
    pub fn new(scope: Option<ZendClassEntry>, this: Zval, args: Vec<Zval>) -> (frame: Self)
        ensures
            frame.scope() == scope,
            frame.this() == this@,
            frame.args() == zval_views(args@),
            forall|n: int| 0 <= n < args.len() ==> frame.arg(n) == args[n],
    {
        let header: usize = Self::zend_call_frame_slot();
        let mut slots: Vec<FrameSlot> = Vec::new();
        let mut i: usize = 0;
        while i < header
            invariant
                i <= header,
                header == call_frame_slot(),
                slots.len() == i,
                forall|j: int| 0 <= j < i ==> slots[j] is Header,
            decreases header - i,
        {
            slots.push(FrameSlot::Header);
            i = i + 1;
        }
        let mut n: usize = 0;
        while n < args.len()
            invariant
                n <= args.len(),
                header == call_frame_slot(),
                slots.len() == header + n,
                forall|j: int| 0 <= j < header ==> slots[j] is Header,
                forall|j: int| 0 <= j < n ==> slots[header + j] == FrameSlot::Value(args[j]),
            decreases args.len() - n,
        {
            slots.push(FrameSlot::Value(args[n].clone()));
            n = n + 1;
        }
        assert forall|i: int| call_frame_slot() <= i < slots.len() implies slots[i] is Value by {
            assert(slots[header + (i - header)] == FrameSlot::Value(args[i - header]));
        }
        let frame = ExecutionData { scope, this, slots };
        assert(frame.args() =~= zval_views(args@));
        frame
    }

    /// The engine's macro `ZEND_CALL_VAR_NUM(call, n)`: the slot, counted from
    /// the frame's base, in which argument `n` lies.
    pub fn zend_call_var_num(&self, n: usize) -> (slot: usize)
        requires
            call_frame_slot() + n <= usize::MAX,
        ensures
            slot == call_frame_slot() + n,
    {
        Self::zend_call_frame_slot() + n
    }

    /// The engine's macro `ZEND_CALL_ARG(call, n)`: the argument at offset `n`,
    /// where the first argument is at offset 0. The frame does not say how
    /// many arguments it holds: the caller has to know that there is one at
    /// `n`.
    pub fn zend_call_arg(&self, n: usize) -> (arg: Option<&Zval>)
        requires
            n < self.args().len(),
        ensures
            arg == Some(&self.arg(n as int)),
            self.arg(n as int)@ == self.args()[n as int],
    {
        proof {
            use_type_invariant(self);
        }
        let slot: usize = self.zend_call_var_num(n);
        match &self.slots[slot] {
            FrameSlot::Value(zv) => Some(zv),
            FrameSlot::Header => None,
        }
    }

    /// Retrieves an argument from the execution data at a given offset, as a
    /// `T`. Offsets start at zero. The result is `None` where the argument
    /// does not convert to a `T`.
    pub fn get_arg<'a, T: TryFrom<&'a Zval>>(&'a self, offset: usize) -> (arg: Option<T>)
        requires
            offset < self.args().len(),
        ensures
            T::obeys_try_from_spec() ==> arg == match T::try_from_spec(&self.arg(offset as int)) {
                Ok(res) => Some(res),
                Err(_) => None,
            },
    {
        match self.zend_call_arg(offset) {
            Some(zval) => match T::try_from(zval) {
                Ok(res) => Some(res),
                Err(_) => None,
            },
            None => None,
        }
    }

    /// Says what to ask the engine for the property `name` of the object on
    /// which the function was called. There is nothing to ask where the frame
    /// has no receiver: the property is then absent.
    pub fn get_parameter(&mut self, name: &str) -> (query: Option<PropertyQuery>)
        ensures
            *final(self) == *old(self),
            match query {
                Some(query) => old(self).receiver() matches Some((scope, object)) && query@ == (
                PropertyQueryView { scope, object, name: name@, silent: false }),
                None => old(self).receiver() is None,
            },
    {
        let scope = match self.scope {
            Some(scope) => scope,
            None => {
                return None;
            },
        };
        match self.this.object() {
            Some(object) => Some(PropertyQuery { scope, object, name: name.to_owned(), silent: false }),
            None => None,
        }
    }

    /// The engine's macro `ZEND_MM_ALIGNED_SIZE(size)`: what its memory manager
    /// makes of a size.
    pub fn zend_mm_aligned_size(size: usize) -> (aligned: usize)
        requires
            size + ZEND_MM_ALIGNMENT - 1 <= usize::MAX,
        ensures
            aligned == mm_aligned(size as int),
    {
        proof {
            lemma_mm_alignment();
            lemma_mask_rounds_down((size + ZEND_MM_ALIGNMENT - 1) as usize, ZEND_MM_ALIGNMENT);
        }
        (size + (ZEND_MM_ALIGNMENT - 1)) & ZEND_MM_ALIGNMENT_MASK
    }

    /// The engine's macro `ZEND_CALL_FRAME_SLOT`: the number of slots that the
    /// header takes up. Slot 0 is the header's first, and the first argument
    /// lies in the slot of this number.
    pub fn zend_call_frame_slot() -> (count: usize)
        ensures
            count == call_frame_slot(),
            count * mm_aligned(ZVAL_SIZE as int) >= mm_aligned(ZEND_EXECUTE_DATA_SIZE as int),
            (count - 1) * mm_aligned(ZVAL_SIZE as int) < mm_aligned(ZEND_EXECUTE_DATA_SIZE as int),
    {
        proof {
            lemma_mm_alignment();
            lemma_round_up_is_next_multiple(ZEND_EXECUTE_DATA_SIZE as int, ZEND_MM_ALIGNMENT as int);
            lemma_round_up_is_next_multiple(ZVAL_SIZE as int, ZEND_MM_ALIGNMENT as int);
            crate::php::alignment::lemma_slots_cover_header(
                ZEND_EXECUTE_DATA_SIZE as int,
                ZVAL_SIZE as int,
                ZEND_MM_ALIGNMENT as int,
            );
        }
        (Self::zend_mm_aligned_size(ZEND_EXECUTE_DATA_SIZE) + Self::zend_mm_aligned_size(ZVAL_SIZE)
            - 1) / Self::zend_mm_aligned_size(ZVAL_SIZE)
    }
}

} // verus!
