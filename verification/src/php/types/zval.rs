//! The base value of the engine. A `Zval` holds a value of any type of the
//! language; which one is told by its variant, and the variant alone decides
//! what its readers return.

use vstd::prelude::*;
use crate::bindings::{ZendObject, ZendResource};
use crate::php::invoker::{HostRequest, HostRequestView, Invocation, InvocationView};
use crate::php::types::array::ZendHashTable;
use crate::php::types::long::ZendLong;
use crate::php::types::string::{StringStorage, ZendString, ZendStringView};

verus! {

/// A value of the engine.
#[derive(Debug, PartialEq, Eq)]
pub enum Zval {
    /// No value.
    Null,
    /// The boolean true.
    True,
    /// The boolean false.
    False,
    /// An integer.
    Long(ZendLong),
    /// A double, held as the 64 bits of its IEEE 754 form.
    Double(u64),
    /// A string of the engine.
    String(ZendString),
    /// A hash table of the engine.
    Array(ZendHashTable),
    /// An object of the engine.
    Object(ZendObject),
    /// A resource of the engine.
    Resource(ZendResource),
    /// Another value, reached through this one.
    Reference(Box<Zval>),
    /// The mark of something callable. It stands for a type in a signature and
    /// carries nothing that a reader could return.
    Callable,
}

/// What a `Zval` stands for.
pub enum ZvalView {
    Null,
    True,
    False,
    Long(ZendLong),
    Double(u64),
    String(ZendStringView),
    Array(ZendHashTable),
    Object(ZendObject),
    Resource(ZendResource),
    Reference(Box<ZvalView>),
    Callable,
}

impl Zval {
    /// What this value stands for.
    pub open spec fn model(self) -> ZvalView
        decreases self,
    {
        match self {
            Zval::Null => ZvalView::Null,
            Zval::True => ZvalView::True,
            Zval::False => ZvalView::False,
            Zval::Long(val) => ZvalView::Long(val),
            Zval::Double(bits) => ZvalView::Double(bits),
            Zval::String(string) => ZvalView::String(string@),
            Zval::Array(table) => ZvalView::Array(table),
            Zval::Object(object) => ZvalView::Object(object),
            Zval::Resource(resource) => ZvalView::Resource(resource),
            Zval::Reference(target) => ZvalView::Reference(Box::new((*target).model())),
            Zval::Callable => ZvalView::Callable,
        }
    }
}

impl Zval {
    /// What `string` reads from this value, with the text as it is held.
    pub open spec fn held_string(self) -> Option<StringValue> {
        match self {
            Zval::String(string) => Some(StringValue::Text(string.text())),
            Zval::Double(bits) => Some(StringValue::Number(DoubleValue::Bits(bits))),
            Zval::Long(val) => Some(StringValue::Number(DoubleValue::Long(val))),
            _ => None,
        }
    }
}

impl View for Zval {
    type V = ZvalView;

    open spec fn view(&self) -> ZvalView {
        self.model()
    }
}

/// What each of `zvals` stands for, in their order.
pub open spec fn zval_views(zvals: Seq<Zval>) -> Seq<ZvalView> {
    Seq::new(zvals.len(), |i: int| zvals[i]@)
}

/// A double as a reader gets it. No floating point is computed here: the reader
/// is handed the bits of a double, or the integer that it has to widen.
#[derive(Clone, Copy, Debug, PartialEq, Eq, Structural)]
pub enum DoubleValue {
    /// The 64 bits of a double in its IEEE 754 form.
    Bits(u64),
    /// An integer, which stands for the double nearest to it.
    Long(ZendLong),
}

/// A string as a reader gets it: the text of a string, or the number that the
/// reader has to write out.
#[derive(Debug, PartialEq, Eq)]
pub enum StringValue {
    /// The text of a string.
    Text(String),
    /// A number, which stands for its decimal form as a double.
    Number(DoubleValue),
}

/// What a `StringValue` stands for.
pub enum StringValueView {
    Text(Seq<char>),
    Number(DoubleValue),
}

impl View for StringValue {
    type V = StringValueView;

    open spec fn view(&self) -> StringValueView {
        match self {
            StringValue::Text(text) => StringValueView::Text(text@),
            StringValue::Number(number) => StringValueView::Number(*number),
        }
    }
}

impl ZvalView {
    /// The integer, if this is one.
    pub open spec fn long(self) -> Option<ZendLong> {
        match self {
            ZvalView::Long(val) => Some(val),
            _ => None,
        }
    }

    /// The boolean, if this is one.
    pub open spec fn bool(self) -> Option<bool> {
        match self {
            ZvalView::True => Some(true),
            ZvalView::False => Some(false),
            _ => None,
        }
    }

    /// The double, if this is one, and the integer as a double, if this is an
    /// integer.
    pub open spec fn double(self) -> Option<DoubleValue> {
        match self {
            ZvalView::Double(bits) => Some(DoubleValue::Bits(bits)),
            ZvalView::Long(val) => Some(DoubleValue::Long(val)),
            _ => None,
        }
    }

    /// The text, if this is a string, and the number to write out, if this is
    /// a double or an integer.
    pub open spec fn string(self) -> Option<StringValueView> {
        match self {
            ZvalView::String(string) => Some(StringValueView::Text(string.text)),
            _ => match self.double() {
                Some(number) => Some(StringValueView::Number(number)),
                None => None,
            },
        }
    }

    /// The resource, if this is one.
    pub open spec fn resource(self) -> Option<ZendResource> {
        match self {
            ZvalView::Resource(resource) => Some(resource),
            _ => None,
        }
    }

    /// The hash table, if this is one.
    pub open spec fn array(self) -> Option<ZendHashTable> {
        match self {
            ZvalView::Array(table) => Some(table),
            _ => None,
        }
    }

    /// The object, if this is one.
    pub open spec fn object(self) -> Option<ZendObject> {
        match self {
            ZvalView::Object(object) => Some(object),
            _ => None,
        }
    }

    /// The value that this one refers to, if this is a reference.
    pub open spec fn reference(self) -> Option<ZvalView> {
        match self {
            ZvalView::Reference(target) => Some(*target),
            _ => None,
        }
    }
}

/// 1 if `holds`, and 0 if not.
pub open spec fn count_of(holds: bool) -> int {
    if holds {
        1
    } else {
        0
    }
}

impl ZvalView {
    /// How many of the ten types this value is of.
    pub open spec fn type_count(self) -> int {
        count_of(self is Null) + count_of(self is True) + count_of(self is False) + count_of(
            self is Long,
        ) + count_of(self is Double) + count_of(self is String) + count_of(self is Array)
            + count_of(self is Object) + count_of(self is Resource) + count_of(self is Reference)
    }
}

/// A value is of exactly one type, unless it is the mark of something
/// callable, which is of none.
pub proof fn lemma_exactly_one_type(zv: ZvalView)
    ensures
        zv.type_count() == if zv is Callable {
            0int
        } else {
            1int
        },
{
}

/// A reader returns a value exactly where the zval is of the reader's type.
/// Two readers return more: `double` also takes an integer, and `string` also
/// takes a double and an integer.
pub proof fn lemma_readers_follow_type(zv: ZvalView)
    ensures
        zv.long() is Some <==> zv is Long,
        zv.bool() is Some <==> zv is True || zv is False,
        zv.double() is Some <==> zv is Double || zv is Long,
        zv.string() is Some <==> zv is String || zv is Double || zv is Long,
        zv.resource() is Some <==> zv is Resource,
        zv.array() is Some <==> zv is Array,
        zv.object() is Some <==> zv is Object,
        zv.reference() is Some <==> zv is Reference,
{
}

/// What is put into a zval as an integer, a boolean, a double or a string is
/// what the reader of that type returns from it, unchanged.
pub proof fn lemma_read_back(val: ZendLong, flag: bool, bits: u64, string: ZendStringView)
    ensures
        ZvalView::Long(val).long() == Some(val),
        (if flag {
            ZvalView::True
        } else {
            ZvalView::False
        }).bool() == Some(flag),
        ZvalView::Double(bits).double() == Some(DoubleValue::Bits(bits)),
        ZvalView::String(string).string() == Some(StringValueView::Text(string.text)),
{
}

impl Zval {
    /// Creates a new, empty zval.
    pub fn new() -> (zv: Self)
        ensures
            zv@ == ZvalView::Null,
    {
        Zval::Null
    }

    /// Returns the value of the zval if it is a long.
    pub fn long(&self) -> (val: Option<ZendLong>)
        ensures
            val == self@.long(),
    {
        if self.is_long() {
            match self {
                Zval::Long(val) => Some(*val),
                _ => None,
            }
        } else {
            None
        }
    }

    /// Returns the value of the zval if it is a bool.
    pub fn bool(&self) -> (val: Option<bool>)
        ensures
            val == self@.bool(),
    {
        if self.is_true() {
            Some(true)
        } else if self.is_false() {
            Some(false)
        } else {
            None
        }
    }

    /// Returns the value of the zval if it is a double, and the integer to
    /// widen if it is a long.
    pub fn double(&self) -> (val: Option<DoubleValue>)
        ensures
            val == self@.double(),
    {
        if self.is_double() {
            match self {
                Zval::Double(bits) => Some(DoubleValue::Bits(*bits)),
                _ => None,
            }
        } else {
            match self.long() {
                Some(val) => Some(DoubleValue::Long(val)),
                None => None,
            }
        }
    }

    /// Returns the text of the zval if it is a string, and the number to write
    /// out if it is a double or a long.
    pub fn string(&self) -> (val: Option<StringValue>)
        ensures
            val == self.held_string(),
            match val {
                Some(value) => self@.string() == Some(value@),
                None => self@.string() is None,
            },
    {
        proof {
            if let Zval::String(string) = self {
                string.lemma_text_view();
            }
        }
        if self.is_string() {
            match self {
                Zval::String(string) => Some(StringValue::Text(string.to_text())),
                _ => None,
            }
        } else {
            match self.double() {
                Some(number) => Some(StringValue::Number(number)),
                None => None,
            }
        }
    }

    /// Returns the value of the zval if it is a resource.
    pub fn resource(&self) -> (val: Option<ZendResource>)
        ensures
            val == self@.resource(),
    {
        if self.is_resource() {
            match self {
                Zval::Resource(resource) => Some(*resource),
                _ => None,
            }
        } else {
            None
        }
    }

    /// Returns the value of the zval if it is an array.
    pub fn array(&self) -> (val: Option<ZendHashTable>)
        ensures
            val == self@.array(),
    {
        if self.is_array() {
            match self {
                Zval::Array(table) => Some(*table),
                _ => None,
            }
        } else {
            None
        }
    }

    /// Returns the value of the zval if it is an object.
    pub fn object(&self) -> (val: Option<ZendObject>)
        ensures
            val == self@.object(),
    {
        if self.is_object() {
            match self {
                Zval::Object(object) => Some(*object),
                _ => None,
            }
        } else {
            None
        }
    }

    /// Returns the value that the zval refers to if it is a reference.
    pub fn reference(&self) -> (val: Option<Zval>)
        ensures
            match val {
                Some(target) => self@.reference() == Some(target@),
                None => self@.reference() is None,
            },
    {
        if self.is_reference() {
            match self {
                Zval::Reference(target) => Some((**target).clone()),
                _ => None,
            }
        } else {
            None
        }
    }

    /// Begins a call of the zval as a function, with `params` as arguments,
    /// which are packed into one block: says where the call stands then, and
    /// that the engine is to be asked whether the zval can be called. The call
    /// goes on with `Invocation::step`.
    ///
    /// An exception thrown inside the function is not seen here: a result that
    /// is present does not show that the call went well.
    pub fn try_call(&self, params: Vec<Zval>) -> (begun: (Invocation, HostRequest))
        ensures
            begun.0@ == (InvocationView::Packed { callable: self@, params: zval_views(params@) }),
            begun.1@ == HostRequestView::IsCallable,
    {
        (Invocation::Packed { callable: self.clone(), params }, HostRequest::IsCallable)
    }

    /// Returns true if the zval is a long, false otherwise.
    pub fn is_long(&self) -> (is: bool)
        ensures
            is == (self@ is Long),
    {
        match self {
            Zval::Long(_) => true,
            _ => false,
        }
    }

    /// Returns true if the zval is null, false otherwise.
    pub fn is_null(&self) -> (is: bool)
        ensures
            is == (self@ is Null),
    {
        match self {
            Zval::Null => true,
            _ => false,
        }
    }

    /// Returns true if the zval is true, false otherwise.
    pub fn is_true(&self) -> (is: bool)
        ensures
            is == (self@ is True),
    {
        match self {
            Zval::True => true,
            _ => false,
        }
    }

    /// Returns true if the zval is false, false otherwise.
    pub fn is_false(&self) -> (is: bool)
        ensures
            is == (self@ is False),
    {
        match self {
            Zval::False => true,
            _ => false,
        }
    }

    /// Returns true if the zval is a bool, false otherwise.
    pub fn is_bool(&self) -> (is: bool)
        ensures
            is == (self@ is True || self@ is False),
    {
        self.is_true() || self.is_false()
    }

    /// Returns true if the zval is a double, false otherwise.
    pub fn is_double(&self) -> (is: bool)
        ensures
            is == (self@ is Double),
    {
        match self {
            Zval::Double(_) => true,
            _ => false,
        }
    }

    /// Returns true if the zval is a string, false otherwise.
    pub fn is_string(&self) -> (is: bool)
        ensures
            is == (self@ is String),
    {
        match self {
            Zval::String(_) => true,
            _ => false,
        }
    }

    /// Returns true if the zval is a resource, false otherwise.
    pub fn is_resource(&self) -> (is: bool)
        ensures
            is == (self@ is Resource),
    {
        match self {
            Zval::Resource(_) => true,
            _ => false,
        }
    }

    /// Returns true if the zval is an array, false otherwise.
    pub fn is_array(&self) -> (is: bool)
        ensures
            is == (self@ is Array),
    {
        match self {
            Zval::Array(_) => true,
            _ => false,
        }
    }

    /// Returns true if the zval is an object, false otherwise.
    pub fn is_object(&self) -> (is: bool)
        ensures
            is == (self@ is Object),
    {
        match self {
            Zval::Object(_) => true,
            _ => false,
        }
    }

    /// Returns true if the zval is a reference, false otherwise.
    pub fn is_reference(&self) -> (is: bool)
        ensures
            is == (self@ is Reference),
    {
        match self {
            Zval::Reference(_) => true,
            _ => false,
        }
    }

    /// Sets the value of the zval as a string that the engine keeps until the
    /// end of the request.
    pub fn set_string(&mut self, val: &str)
        ensures
            final(self)@ == ZvalView::String(
                ZendStringView { text: val@, storage: StringStorage::Request },
            ),
    {
        *self = Zval::String(ZendString::new(val, false));
    }

    /// Sets the value of the zval as a persistent string: one that the engine
    /// keeps across requests.
    pub fn set_persistent_string(&mut self, val: &str)
        ensures
            final(self)@ == ZvalView::String(
                ZendStringView { text: val@, storage: StringStorage::Persistent },
            ),
    {
        *self = Zval::String(ZendString::new(val, true));
    }

    /// Sets the value of the zval as an interned string.
    pub fn set_interned_string(&mut self, val: &str)
        ensures
            final(self)@ == ZvalView::String(
                ZendStringView { text: val@, storage: StringStorage::Interned },
            ),
    {
        *self = Zval::String(ZendString::new_interned(val));
    }

    /// Sets the value of the zval as a long.
    pub fn set_long(&mut self, val: ZendLong)
        ensures
            final(self)@ == ZvalView::Long(val),
    {
        *self = Zval::Long(val);
    }

    /// Sets the value of the zval as the double whose IEEE 754 form is `bits`.
    pub fn set_double(&mut self, bits: u64)
        ensures
            final(self)@ == ZvalView::Double(bits),
    {
        *self = Zval::Double(bits);
    }

    /// Sets the value of the zval as a boolean.
    pub fn set_bool(&mut self, val: bool)
        ensures
            final(self)@ == if val {
                ZvalView::True
            } else {
                ZvalView::False
            },
    {
        *self = if val {
            Zval::True
        } else {
            Zval::False
        };
    }

    /// Sets the value of the zval as null. This is the default of a zval.
    pub fn set_null(&mut self)
        ensures
            final(self)@ == ZvalView::Null,
    {
        *self = Zval::Null;
    }

    /// Sets the value of the zval as a resource.
    pub fn set_resource(&mut self, val: ZendResource)
        ensures
            final(self)@ == ZvalView::Resource(val),
    {
        *self = Zval::Resource(val);
    }

    /// Sets the value of the zval as an object. The object is held by its
    /// handle whatever `_copy` says.
    pub fn set_object(&mut self, val: ZendObject, _copy: bool)
        ensures
            final(self)@ == ZvalView::Object(val),
    {
        *self = Zval::Object(val);
    }

    /// Sets the value of the zval as an array.
    pub fn set_array(&mut self, val: ZendHashTable)
        ensures
            final(self)@ == ZvalView::Array(val),
    {
        *self = Zval::Array(val);
    }
}

impl Clone for Zval {
    fn clone(&self) -> (copy: Self)
        ensures
            copy == *self,
        decreases self,
    {
        match self {
            Zval::Null => Zval::Null,
            Zval::True => Zval::True,
            Zval::False => Zval::False,
            Zval::Long(val) => Zval::Long(*val),
            Zval::Double(bits) => Zval::Double(*bits),
            Zval::String(string) => Zval::String(string.clone()),
            Zval::Array(table) => Zval::Array(*table),
            Zval::Object(object) => Zval::Object(*object),
            Zval::Resource(resource) => Zval::Resource(*resource),
            Zval::Reference(target) => Zval::Reference(Box::new((**target).clone())),
            Zval::Callable => Zval::Callable,
        }
    }
}

impl TryFrom<&Zval> for ZendLong {
    type Error = ();

    fn try_from(value: &Zval) -> (converted: Result<Self, Self::Error>) {
        match value.long() {
            Some(val) => Ok(val),
            _ => Err(()),
        }
    }
}

impl vstd::std_specs::convert::TryFromSpecImpl<&Zval> for ZendLong {
    open spec fn obeys_try_from_spec() -> bool {
        true
    }

    open spec fn try_from_spec(value: &Zval) -> Result<Self, Self::Error> {
        match value@.long() {
            Some(val) => Ok(val),
            None => Err(()),
        }
    }
}

impl TryFrom<&Zval> for bool {
    type Error = ();

    fn try_from(value: &Zval) -> (converted: Result<Self, Self::Error>) {
        match value.bool() {
            Some(val) => Ok(val),
            _ => Err(()),
        }
    }
}

impl vstd::std_specs::convert::TryFromSpecImpl<&Zval> for bool {
    open spec fn obeys_try_from_spec() -> bool {
        true
    }

    open spec fn try_from_spec(value: &Zval) -> Result<Self, Self::Error> {
        match value@.bool() {
            Some(val) => Ok(val),
            None => Err(()),
        }
    }
}

impl TryFrom<&Zval> for DoubleValue {
    type Error = ();

    fn try_from(value: &Zval) -> (converted: Result<Self, Self::Error>) {
        match value.double() {
            Some(val) => Ok(val),
            _ => Err(()),
        }
    }
}

impl vstd::std_specs::convert::TryFromSpecImpl<&Zval> for DoubleValue {
    open spec fn obeys_try_from_spec() -> bool {
        true
    }

    open spec fn try_from_spec(value: &Zval) -> Result<Self, Self::Error> {
        match value@.double() {
            Some(val) => Ok(val),
            None => Err(()),
        }
    }
}

impl TryFrom<&Zval> for StringValue {
    type Error = ();

    fn try_from(value: &Zval) -> (converted: Result<Self, Self::Error>)
        ensures
            match converted {
                Ok(val) => value@.string() == Some(val@),
                Err(_) => value@.string() is None,
            },
    {
        match value.string() {
            Some(val) => Ok(val),
            _ => Err(()),
        }
    }
}

impl vstd::std_specs::convert::TryFromSpecImpl<&Zval> for StringValue {
    open spec fn obeys_try_from_spec() -> bool {
        true
    }

    open spec fn try_from_spec(value: &Zval) -> Result<Self, Self::Error> {
        match value.held_string() {
            Some(val) => Ok(val),
            None => Err(()),
        }
    }
}

impl TryFrom<&Zval> for ZendHashTable {
    type Error = ();

    fn try_from(value: &Zval) -> (converted: Result<Self, Self::Error>) {
        match value.array() {
            Some(val) => Ok(val),
            _ => Err(()),
        }
    }
}

impl vstd::std_specs::convert::TryFromSpecImpl<&Zval> for ZendHashTable {
    open spec fn obeys_try_from_spec() -> bool {
        true
    }

    open spec fn try_from_spec(value: &Zval) -> Result<Self, Self::Error> {
        match value@.array() {
            Some(val) => Ok(val),
            None => Err(()),
        }
    }
}

impl From<ZendLong> for Zval {
    fn from(val: ZendLong) -> (zv: Self) {
        let mut zv = Self::new();
        zv.set_long(val);
        zv
    }
}

impl vstd::std_specs::convert::FromSpecImpl<ZendLong> for Zval {
    open spec fn obeys_from_spec() -> bool {
        true
    }

    open spec fn from_spec(val: ZendLong) -> Self {
        Zval::Long(val)
    }
}

impl From<bool> for Zval {
    fn from(val: bool) -> (zv: Self) {
        let mut zv = Self::new();
        zv.set_bool(val);
        zv
    }
}

impl vstd::std_specs::convert::FromSpecImpl<bool> for Zval {
    open spec fn obeys_from_spec() -> bool {
        true
    }

    open spec fn from_spec(val: bool) -> Self {
        if val {
            Zval::True
        } else {
            Zval::False
        }
    }
}

impl From<String> for Zval {
    fn from(val: String) -> (zv: Self)
        ensures
            zv@ == ZvalView::String(ZendStringView { text: val@, storage: StringStorage::Request }),
    {
        let mut zv = Self::new();
        zv.set_string(val.as_str());
        zv
    }
}

impl vstd::std_specs::convert::FromSpecImpl<String> for Zval {
    open spec fn obeys_from_spec() -> bool {
        false
    }

    open spec fn from_spec(val: String) -> Self {
        arbitrary()
    }
}

impl From<&str> for Zval {
    fn from(val: &str) -> (zv: Self)
        ensures
            zv@ == ZvalView::String(ZendStringView { text: val@, storage: StringStorage::Request }),
    {
        let mut zv = Self::new();
        zv.set_string(val);
        zv
    }
}

impl vstd::std_specs::convert::FromSpecImpl<&str> for Zval {
    open spec fn obeys_from_spec() -> bool {
        false
    }

    open spec fn from_spec(val: &str) -> Self {
        arbitrary()
    }
}

} // verus!
