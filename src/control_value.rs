//! Dynamically typed control values, and their marshalling from and to the
//! typed values that controls declare.
use vstd::prelude::*;

use crate::geometry::{Rectangle, Size};

verus! {

/// A single value of one of the control types.
#[derive(Debug)]
pub enum ControlPrimitiveValue {
    Bool(bool),
    Byte(u8),
    Int32(i32),
    Int64(i64),
    Rectangle(Rectangle),
    Size(Size),
    String(String),
}

/// A sequence of values of one control type.
#[derive(Debug)]
pub enum ControlArrayValue {
    Bool(Vec<bool>),
    Byte(Vec<u8>),
    Int32(Vec<i32>),
    Int64(Vec<i64>),
    Rectangle(Vec<Rectangle>),
    Size(Vec<Size>),
    String(Vec<String>),
}

/// A property value as a control list stores it: its tag (empty, single value,
/// array, or a type this library does not read) and its payload.
#[derive(Debug)]
pub enum ControlValue {
    Empty,
    Primitive(ControlPrimitiveValue),
    Array(ControlArrayValue),
    Unknown,
}

/// What a control value holds, as a mathematical value: the tag together with
/// the payload, arrays as sequences.
pub enum ControlData {
    Empty,
    Bool(bool),
    Byte(u8),
    Int32(i32),
    Int64(i64),
    Rectangle(Rectangle),
    Size(Size),
    Text(Seq<char>),
    Bools(Seq<bool>),
    Bytes(Seq<u8>),
    Int32s(Seq<i32>),
    Int64s(Seq<i64>),
    Rectangles(Seq<Rectangle>),
    Sizes(Seq<Size>),
    Texts(Seq<String>),
    Unknown,
}

impl View for Size {
    type V = Size;

    open spec fn view(&self) -> Size {
        *self
    }
}

impl View for Rectangle {
    type V = Rectangle;

    open spec fn view(&self) -> Rectangle {
        *self
    }
}

impl View for ControlValue {
    type V = ControlData;

    open spec fn view(&self) -> ControlData {
        match self {
            ControlValue::Empty => ControlData::Empty,
            ControlValue::Primitive(p) => match p {
                ControlPrimitiveValue::Bool(v) => ControlData::Bool(*v),
                ControlPrimitiveValue::Byte(v) => ControlData::Byte(*v),
                ControlPrimitiveValue::Int32(v) => ControlData::Int32(*v),
                ControlPrimitiveValue::Int64(v) => ControlData::Int64(*v),
                ControlPrimitiveValue::Rectangle(v) => ControlData::Rectangle(*v),
                ControlPrimitiveValue::Size(v) => ControlData::Size(*v),
                ControlPrimitiveValue::String(v) => ControlData::Text(v@),
            },
            ControlValue::Array(a) => match a {
                ControlArrayValue::Bool(v) => ControlData::Bools(v@),
                ControlArrayValue::Byte(v) => ControlData::Bytes(v@),
                ControlArrayValue::Int32(v) => ControlData::Int32s(v@),
                ControlArrayValue::Int64(v) => ControlData::Int64s(v@),
                ControlArrayValue::Rectangle(v) => ControlData::Rectangles(v@),
                ControlArrayValue::Size(v) => ControlData::Sizes(v@),
                ControlArrayValue::String(v) => ControlData::Texts(v@),
            },
            ControlValue::Unknown => ControlData::Unknown,
        }
    }
}

impl ControlValue {
    /// Whether the value holds nothing at all.
    pub fn is_none(&self) -> (r: bool)
        ensures
            r == (self@ is Empty),
    {
        if let ControlValue::Empty = self {
            true
        } else {
            false
        }
    }

    /// A copy of the value, payload included.
    pub fn duplicate(&self) -> (r: ControlValue)
        ensures
            r@ == self@,
    {
        match self {
            ControlValue::Empty => ControlValue::Empty,
            ControlValue::Primitive(p) => ControlValue::Primitive(
                match p {
                    ControlPrimitiveValue::Bool(v) => ControlPrimitiveValue::Bool(*v),
                    ControlPrimitiveValue::Byte(v) => ControlPrimitiveValue::Byte(*v),
                    ControlPrimitiveValue::Int32(v) => ControlPrimitiveValue::Int32(*v),
                    ControlPrimitiveValue::Int64(v) => ControlPrimitiveValue::Int64(*v),
                    ControlPrimitiveValue::Rectangle(v) => ControlPrimitiveValue::Rectangle(*v),
                    ControlPrimitiveValue::Size(v) => ControlPrimitiveValue::Size(*v),
                    ControlPrimitiveValue::String(v) => ControlPrimitiveValue::String(v.clone()),
                },
            ),
            ControlValue::Array(a) => ControlValue::Array(
                match a {
                    ControlArrayValue::Bool(v) => ControlArrayValue::Bool(copy_items(v.as_slice())),
                    ControlArrayValue::Byte(v) => ControlArrayValue::Byte(copy_items(v.as_slice())),
                    ControlArrayValue::Int32(v) => ControlArrayValue::Int32(copy_items(v.as_slice())),
                    ControlArrayValue::Int64(v) => ControlArrayValue::Int64(copy_items(v.as_slice())),
                    ControlArrayValue::Rectangle(v) => ControlArrayValue::Rectangle(
                        copy_items(v.as_slice()),
                    ),
                    ControlArrayValue::Size(v) => ControlArrayValue::Size(copy_items(v.as_slice())),
                    ControlArrayValue::String(v) => ControlArrayValue::String(
                        copy_items(v.as_slice()),
                    ),
                },
            ),
            ControlValue::Unknown => ControlValue::Unknown,
        }
    }
}

/// A type whose values can be written into a control value.
pub trait AssignToRawControlValue: View {
    /// What a value of this type is written as.
    spec fn raw_data(v: Self::V) -> ControlData;

    /// Replaces `value` with this value's tag and payload.
    fn assign_to(&self, value: &mut ControlValue)
        ensures
            final(value)@ == Self::raw_data(self@),
    ;
}

/// A type whose values can be read out of a control value whose tag fits.
pub trait FromRawControlValue: AssignToRawControlValue + Sized {
    /// What raw data reads as in this type; none where its tag does not fit.
    spec fn from_data(data: ControlData) -> Option<Self::V>;

    /// Reads `value` as this type; none where its tag does not fit.
    fn from_value(value: &ControlValue) -> (r: Option<Self>)
        ensures
            match r {
                Some(x) => Self::from_data(value@) == Some(x@),
                None => Self::from_data(value@) is None,
            },
    ;

    /// Reading back what a value was written as gives that value.
    proof fn lemma_round_trip(v: Self)
        ensures
            Self::from_data(Self::raw_data(v@)) == Some(v@),
    ;
}

/// A type that can be the element of an array control.
pub trait ControlElement: Sized {
    /// What an array of these elements is written as.
    spec fn array_data(items: Seq<Self>) -> ControlData;

    /// The elements that raw data holds, where it is an array of this type.
    spec fn array_items(data: ControlData) -> Option<Seq<Self>>;

    proof fn lemma_array_round_trip(items: Seq<Self>)
        ensures
            Self::array_items(Self::array_data(items)) == Some(items),
    ;

    /// A copy of the element.
    fn duplicate(&self) -> (r: Self)
        ensures
            r == *self,
    ;

    /// The value an element stands at in a fresh array before it is filled.
    fn filler() -> Self;

    /// The control value that holds `items` as an array.
    fn into_array_value(items: Vec<Self>) -> (r: ControlValue)
        ensures
            r@ == Self::array_data(items@),
    ;

    /// The elements of `value`, where it is an array of this type.
    fn array_of(value: &ControlValue) -> (r: Option<&Vec<Self>>)
        ensures
            match r {
                Some(v) => Self::array_items(value@) == Some(v@),
                None => Self::array_items(value@) is None,
            },
    ;
}

/// The elements of `items`, copied into a vector of their own.
pub fn copy_items<T: ControlElement>(items: &[T]) -> (r: Vec<T>)
    ensures
        r@ == items@,
{
    let mut out: Vec<T> = Vec::new();
    let n = items.len();
    for i in 0..n
        invariant
            n == items@.len(),
            out@ == items@.subrange(0, i as int),
    {
        out.push(items[i].duplicate());
        assert(out@ =~= items@.subrange(0, i as int + 1));
    }
    assert(items@.subrange(0, n as int) =~= items@);
    out
}

impl AssignToRawControlValue for ControlValue {
    open spec fn raw_data(v: ControlData) -> ControlData {
        v
    }

    fn assign_to(&self, value: &mut ControlValue) {
        *value = self.duplicate();
    }
}

impl FromRawControlValue for ControlValue {
    open spec fn from_data(data: ControlData) -> Option<ControlData> {
        Some(data)
    }

    fn from_value(value: &ControlValue) -> (r: Option<ControlValue>) {
        Some(value.duplicate())
    }

    proof fn lemma_round_trip(v: ControlValue) {
    }
}

impl<T: ControlElement> AssignToRawControlValue for Vec<T> {
    open spec fn raw_data(v: Seq<T>) -> ControlData {
        T::array_data(v)
    }

    fn assign_to(&self, value: &mut ControlValue) {
        *value = T::into_array_value(copy_items(self.as_slice()));
    }
}

impl<T: ControlElement> FromRawControlValue for Vec<T> {
    open spec fn from_data(data: ControlData) -> Option<Seq<T>> {
        T::array_items(data)
    }

    fn from_value(value: &ControlValue) -> (r: Option<Vec<T>>) {
        match T::array_of(value) {
            Some(items) => Some(copy_items(items.as_slice())),
            None => None,
        }
    }

    proof fn lemma_round_trip(v: Vec<T>) {
        T::lemma_array_round_trip(v@);
    }
}

impl<T: ControlElement + Copy, const N: usize> AssignToRawControlValue for [T; N] {
    open spec fn raw_data(v: Seq<T>) -> ControlData {
        T::array_data(v)
    }

    fn assign_to(&self, value: &mut ControlValue) {
        *value = T::into_array_value(copy_items(self.as_slice()));
    }
}

impl<T: ControlElement + Copy, const N: usize> FromRawControlValue for [T; N] {
    /// A fixed-length array reads only an array of exactly its length.
    open spec fn from_data(data: ControlData) -> Option<Seq<T>> {
        match T::array_items(data) {
            Some(items) => if items.len() == N {
                Some(items)
            } else {
                None
            },
            None => None,
        }
    }

    fn from_value(value: &ControlValue) -> (r: Option<[T; N]>) {
        match T::array_of(value) {
            Some(items) => {
                if items.len() == N {
                    let mut out: [T; N] = [T::filler();N];
                    for i in 0..N
                        invariant
                            items@.len() == N,
                            forall|j: int| 0 <= j < i ==> out@[j] == items@[j],
                    {
                        out[i] = items[i];
                    }
                    assert(out@ =~= items@);
                    Some(out)
                } else {
                    None
                }
            },
            None => None,
        }
    }

    proof fn lemma_round_trip(v: [T; N]) {
        T::lemma_array_round_trip(v@);
    }
}

impl AssignToRawControlValue for bool {
    open spec fn raw_data(v: bool) -> ControlData {
        ControlData::Bool(v)
    }

    fn assign_to(&self, value: &mut ControlValue) {
        *value = ControlValue::Primitive(ControlPrimitiveValue::Bool(*self));
    }
}

impl FromRawControlValue for bool {
    open spec fn from_data(data: ControlData) -> Option<bool> {
        match data {
            ControlData::Bool(v) => Some(v),
            _ => None,
        }
    }

    fn from_value(value: &ControlValue) -> (r: Option<bool>) {
        match value {
            ControlValue::Primitive(ControlPrimitiveValue::Bool(v)) => Some(*v),
            _ => None,
        }
    }

    proof fn lemma_round_trip(v: bool) {
    }
}

impl ControlElement for bool {
    open spec fn array_data(items: Seq<bool>) -> ControlData {
        ControlData::Bools(items)
    }

    open spec fn array_items(data: ControlData) -> Option<Seq<bool>> {
        match data {
            ControlData::Bools(items) => Some(items),
            _ => None,
        }
    }

    proof fn lemma_array_round_trip(items: Seq<bool>) {
    }

    fn duplicate(&self) -> (r: bool) {
        *self
    }

    fn filler() -> bool {
        false
    }

    fn into_array_value(items: Vec<bool>) -> (r: ControlValue) {
        ControlValue::Array(ControlArrayValue::Bool(items))
    }

    fn array_of(value: &ControlValue) -> (r: Option<&Vec<bool>>) {
        match value {
            ControlValue::Array(ControlArrayValue::Bool(items)) => Some(items),
            _ => None,
        }
    }
}

impl AssignToRawControlValue for u8 {
    open spec fn raw_data(v: u8) -> ControlData {
        ControlData::Byte(v)
    }

    fn assign_to(&self, value: &mut ControlValue) {
        *value = ControlValue::Primitive(ControlPrimitiveValue::Byte(*self));
    }
}

impl FromRawControlValue for u8 {
    open spec fn from_data(data: ControlData) -> Option<u8> {
        match data {
            ControlData::Byte(v) => Some(v),
            _ => None,
        }
    }

    fn from_value(value: &ControlValue) -> (r: Option<u8>) {
        match value {
            ControlValue::Primitive(ControlPrimitiveValue::Byte(v)) => Some(*v),
            _ => None,
        }
    }

    proof fn lemma_round_trip(v: u8) {
    }
}

impl ControlElement for u8 {
    open spec fn array_data(items: Seq<u8>) -> ControlData {
        ControlData::Bytes(items)
    }

    open spec fn array_items(data: ControlData) -> Option<Seq<u8>> {
        match data {
            ControlData::Bytes(items) => Some(items),
            _ => None,
        }
    }

    proof fn lemma_array_round_trip(items: Seq<u8>) {
    }

    fn duplicate(&self) -> (r: u8) {
        *self
    }

    fn filler() -> u8 {
        0
    }

    fn into_array_value(items: Vec<u8>) -> (r: ControlValue) {
        ControlValue::Array(ControlArrayValue::Byte(items))
    }

    fn array_of(value: &ControlValue) -> (r: Option<&Vec<u8>>) {
        match value {
            ControlValue::Array(ControlArrayValue::Byte(items)) => Some(items),
            _ => None,
        }
    }
}

impl AssignToRawControlValue for i32 {
    open spec fn raw_data(v: i32) -> ControlData {
        ControlData::Int32(v)
    }

    fn assign_to(&self, value: &mut ControlValue) {
        *value = ControlValue::Primitive(ControlPrimitiveValue::Int32(*self));
    }
}

impl FromRawControlValue for i32 {
    open spec fn from_data(data: ControlData) -> Option<i32> {
        match data {
            ControlData::Int32(v) => Some(v),
            _ => None,
        }
    }

    fn from_value(value: &ControlValue) -> (r: Option<i32>) {
        match value {
            ControlValue::Primitive(ControlPrimitiveValue::Int32(v)) => Some(*v),
            _ => None,
        }
    }

    proof fn lemma_round_trip(v: i32) {
    }
}

impl ControlElement for i32 {
    open spec fn array_data(items: Seq<i32>) -> ControlData {
        ControlData::Int32s(items)
    }

    open spec fn array_items(data: ControlData) -> Option<Seq<i32>> {
        match data {
            ControlData::Int32s(items) => Some(items),
            _ => None,
        }
    }

    proof fn lemma_array_round_trip(items: Seq<i32>) {
    }

    fn duplicate(&self) -> (r: i32) {
        *self
    }

    fn filler() -> i32 {
        0
    }

    fn into_array_value(items: Vec<i32>) -> (r: ControlValue) {
        ControlValue::Array(ControlArrayValue::Int32(items))
    }

    fn array_of(value: &ControlValue) -> (r: Option<&Vec<i32>>) {
        match value {
            ControlValue::Array(ControlArrayValue::Int32(items)) => Some(items),
            _ => None,
        }
    }
}

impl AssignToRawControlValue for i64 {
    open spec fn raw_data(v: i64) -> ControlData {
        ControlData::Int64(v)
    }

    fn assign_to(&self, value: &mut ControlValue) {
        *value = ControlValue::Primitive(ControlPrimitiveValue::Int64(*self));
    }
}

impl FromRawControlValue for i64 {
    open spec fn from_data(data: ControlData) -> Option<i64> {
        match data {
            ControlData::Int64(v) => Some(v),
            _ => None,
        }
    }

    fn from_value(value: &ControlValue) -> (r: Option<i64>) {
        match value {
            ControlValue::Primitive(ControlPrimitiveValue::Int64(v)) => Some(*v),
            _ => None,
        }
    }

    proof fn lemma_round_trip(v: i64) {
    }
}

impl ControlElement for i64 {
    open spec fn array_data(items: Seq<i64>) -> ControlData {
        ControlData::Int64s(items)
    }

    open spec fn array_items(data: ControlData) -> Option<Seq<i64>> {
        match data {
            ControlData::Int64s(items) => Some(items),
            _ => None,
        }
    }

    proof fn lemma_array_round_trip(items: Seq<i64>) {
    }

    fn duplicate(&self) -> (r: i64) {
        *self
    }

    fn filler() -> i64 {
        0
    }

    fn into_array_value(items: Vec<i64>) -> (r: ControlValue) {
        ControlValue::Array(ControlArrayValue::Int64(items))
    }

    fn array_of(value: &ControlValue) -> (r: Option<&Vec<i64>>) {
        match value {
            ControlValue::Array(ControlArrayValue::Int64(items)) => Some(items),
            _ => None,
        }
    }
}

impl AssignToRawControlValue for Rectangle {
    open spec fn raw_data(v: Rectangle) -> ControlData {
        ControlData::Rectangle(v)
    }

    fn assign_to(&self, value: &mut ControlValue) {
        *value = ControlValue::Primitive(ControlPrimitiveValue::Rectangle(*self));
    }
}

impl FromRawControlValue for Rectangle {
    open spec fn from_data(data: ControlData) -> Option<Rectangle> {
        match data {
            ControlData::Rectangle(v) => Some(v),
            _ => None,
        }
    }

    fn from_value(value: &ControlValue) -> (r: Option<Rectangle>) {
        match value {
            ControlValue::Primitive(ControlPrimitiveValue::Rectangle(v)) => Some(*v),
            _ => None,
        }
    }

    proof fn lemma_round_trip(v: Rectangle) {
    }
}

impl ControlElement for Rectangle {
    open spec fn array_data(items: Seq<Rectangle>) -> ControlData {
        ControlData::Rectangles(items)
    }

    open spec fn array_items(data: ControlData) -> Option<Seq<Rectangle>> {
        match data {
            ControlData::Rectangles(items) => Some(items),
            _ => None,
        }
    }

    proof fn lemma_array_round_trip(items: Seq<Rectangle>) {
    }

    fn duplicate(&self) -> (r: Rectangle) {
        *self
    }

    fn filler() -> Rectangle {
        Rectangle { x: 0, y: 0, width: 0, height: 0 }
    }

    fn into_array_value(items: Vec<Rectangle>) -> (r: ControlValue) {
        ControlValue::Array(ControlArrayValue::Rectangle(items))
    }

    fn array_of(value: &ControlValue) -> (r: Option<&Vec<Rectangle>>) {
        match value {
            ControlValue::Array(ControlArrayValue::Rectangle(items)) => Some(items),
            _ => None,
        }
    }
}

impl AssignToRawControlValue for Size {
    open spec fn raw_data(v: Size) -> ControlData {
        ControlData::Size(v)
    }

    fn assign_to(&self, value: &mut ControlValue) {
        *value = ControlValue::Primitive(ControlPrimitiveValue::Size(*self));
    }
}

impl FromRawControlValue for Size {
    open spec fn from_data(data: ControlData) -> Option<Size> {
        match data {
            ControlData::Size(v) => Some(v),
            _ => None,
        }
    }

    fn from_value(value: &ControlValue) -> (r: Option<Size>) {
        match value {
            ControlValue::Primitive(ControlPrimitiveValue::Size(v)) => Some(*v),
            _ => None,
        }
    }

    proof fn lemma_round_trip(v: Size) {
    }
}

impl ControlElement for Size {
    open spec fn array_data(items: Seq<Size>) -> ControlData {
        ControlData::Sizes(items)
    }

    open spec fn array_items(data: ControlData) -> Option<Seq<Size>> {
        match data {
            ControlData::Sizes(items) => Some(items),
            _ => None,
        }
    }

    proof fn lemma_array_round_trip(items: Seq<Size>) {
    }

    fn duplicate(&self) -> (r: Size) {
        *self
    }

    fn filler() -> Size {
        Size { width: 0, height: 0 }
    }

    fn into_array_value(items: Vec<Size>) -> (r: ControlValue) {
        ControlValue::Array(ControlArrayValue::Size(items))
    }

    fn array_of(value: &ControlValue) -> (r: Option<&Vec<Size>>) {
        match value {
            ControlValue::Array(ControlArrayValue::Size(items)) => Some(items),
            _ => None,
        }
    }
}

impl AssignToRawControlValue for String {
    open spec fn raw_data(v: Seq<char>) -> ControlData {
        ControlData::Text(v)
    }

    fn assign_to(&self, value: &mut ControlValue) {
        *value = ControlValue::Primitive(ControlPrimitiveValue::String(self.clone()));
    }
}

impl FromRawControlValue for String {
    open spec fn from_data(data: ControlData) -> Option<Seq<char>> {
        match data {
            ControlData::Text(v) => Some(v),
            _ => None,
        }
    }

    fn from_value(value: &ControlValue) -> (r: Option<String>) {
        match value {
            ControlValue::Primitive(ControlPrimitiveValue::String(v)) => Some(v.clone()),
            _ => None,
        }
    }

    proof fn lemma_round_trip(v: String) {
    }
}

impl ControlElement for String {
    open spec fn array_data(items: Seq<String>) -> ControlData {
        ControlData::Texts(items)
    }

    open spec fn array_items(data: ControlData) -> Option<Seq<String>> {
        match data {
            ControlData::Texts(items) => Some(items),
            _ => None,
        }
    }

    proof fn lemma_array_round_trip(items: Seq<String>) {
    }

    fn duplicate(&self) -> (r: String) {
        self.clone()
    }

    fn filler() -> String {
        String::new()
    }

    fn into_array_value(items: Vec<String>) -> (r: ControlValue) {
        ControlValue::Array(ControlArrayValue::String(items))
    }

    fn array_of(value: &ControlValue) -> (r: Option<&Vec<String>>) {
        match value {
            ControlValue::Array(ControlArrayValue::String(items)) => Some(items),
            _ => None,
        }
    }
}

} // verus!
