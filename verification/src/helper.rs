//! Calls made to the ArkTS helper object: which method, with which
//! arguments, packed how. The host turns a [`HelperCall`] into the N-API call.

use vstd::prelude::*;
use vstd::string::*;

verus! {

/// One argument value.
#[derive(Debug, Clone, PartialEq, Eq)]
pub enum HelperValue {
    I64(i64),
    I32(i32),
    U32(u32),
    U8(u8),
    Bool(bool),
    Text(String),
}

/// The spec-level content of a [`HelperValue`].
pub enum ValueView {
    I64(i64),
    I32(i32),
    U32(u32),
    U8(u8),
    Bool(bool),
    Text(Seq<char>),
}

impl View for HelperValue {
    type V = ValueView;

    open spec fn view(&self) -> ValueView {
        match self {
            HelperValue::I64(v) => ValueView::I64(*v),
            HelperValue::I32(v) => ValueView::I32(*v),
            HelperValue::U32(v) => ValueView::U32(*v),
            HelperValue::U8(v) => ValueView::U8(*v),
            HelperValue::Bool(v) => ValueView::Bool(*v),
            HelperValue::Text(s) => ValueView::Text(s@),
        }
    }
}

/// How the arguments are passed.
#[derive(Debug, Clone, PartialEq, Eq)]
pub enum HelperArgs {
    /// No argument.
    Unit,
    /// One plain argument.
    Single(HelperValue),
    /// Several positional arguments (spread, not passed as one array).
    Positional(Vec<HelperValue>),
    /// One object argument with these properties, set in this order.
    Object(Vec<(String, HelperValue)>),
}

/// The spec-level content of [`HelperArgs`].
pub enum ArgsView {
    Unit,
    Single(ValueView),
    Positional(Seq<ValueView>),
    Object(Seq<(Seq<char>, ValueView)>),
}

pub open spec fn values_view(v: Seq<HelperValue>) -> Seq<ValueView> {
    v.map_values(|x: HelperValue| x@)
}

pub open spec fn entries_view(v: Seq<(String, HelperValue)>) -> Seq<(Seq<char>, ValueView)> {
    v.map_values(|e: (String, HelperValue)| (e.0@, e.1@))
}

/// The value of the first entry of `entries` keyed `key`, if there is one.
pub open spec fn entry_for(entries: Seq<(Seq<char>, ValueView)>, key: Seq<char>) -> Option<ValueView>
    decreases entries.len(),
{
    if entries.len() == 0 {
        None
    } else if entries[0].0 == key {
        Some(entries[0].1)
    } else {
        entry_for(entries.drop_first(), key)
    }
}

impl View for HelperArgs {
    type V = ArgsView;

    open spec fn view(&self) -> ArgsView {
        match self {
            HelperArgs::Unit => ArgsView::Unit,
            HelperArgs::Single(v) => ArgsView::Single(v@),
            HelperArgs::Positional(v) => ArgsView::Positional(values_view(v@)),
            HelperArgs::Object(e) => ArgsView::Object(entries_view(e@)),
        }
    }
}

/// A call of the helper method `method` with `args`.
#[derive(Debug, Clone, PartialEq, Eq)]
pub struct HelperCall {
    pub method: String,
    pub args: HelperArgs,
}

/// The spec-level content of a [`HelperCall`].
pub struct CallView {
    pub method: Seq<char>,
    pub args: ArgsView,
}

impl View for HelperCall {
    type V = CallView;

    open spec fn view(&self) -> CallView {
        CallView { method: self.method@, args: self.args@ }
    }
}

pub open spec fn unit_call(method: Seq<char>) -> CallView {
    CallView { method, args: ArgsView::Unit }
}

pub open spec fn single_call(method: Seq<char>, v: ValueView) -> CallView {
    CallView { method, args: ArgsView::Single(v) }
}

pub open spec fn positional_call(method: Seq<char>, v: Seq<ValueView>) -> CallView {
    CallView { method, args: ArgsView::Positional(v) }
}

pub open spec fn object_call(method: Seq<char>, e: Seq<(Seq<char>, ValueView)>) -> CallView {
    CallView { method, args: ArgsView::Object(e) }
}

impl HelperCall {
    /// `method()`.
    pub fn unit(method: &str) -> (r: Self)
        ensures
            r@ == unit_call(method@),
    {
        HelperCall { method: String::from_str(method), args: HelperArgs::Unit }
    }

    /// `method(value)`.
    pub fn single(method: &str, value: HelperValue) -> (r: Self)
        ensures
            r@ == single_call(method@, value@),
    {
        HelperCall { method: String::from_str(method), args: HelperArgs::Single(value) }
    }

    /// `method(a, b)`.
    pub fn pair(method: &str, a: HelperValue, b: HelperValue) -> (r: Self)
        ensures
            r@ == positional_call(method@, seq![a@, b@]),
    {
        let mut v: Vec<HelperValue> = Vec::new();
        v.push(a);
        v.push(b);
        assert(values_view(v@) =~= seq![a@, b@]);
        HelperCall { method: String::from_str(method), args: HelperArgs::Positional(v) }
    }

    /// `method(a, b, c)`.
    pub fn triple(method: &str, a: HelperValue, b: HelperValue, c: HelperValue) -> (r: Self)
        ensures
            r@ == positional_call(method@, seq![a@, b@, c@]),
    {
        let mut v: Vec<HelperValue> = Vec::new();
        v.push(a);
        v.push(b);
        v.push(c);
        assert(values_view(v@) =~= seq![a@, b@, c@]);
        HelperCall { method: String::from_str(method), args: HelperArgs::Positional(v) }
    }

    /// `method(values...)`.
    pub fn positional(method: &str, values: Vec<HelperValue>) -> (r: Self)
        ensures
            r@ == positional_call(method@, values_view(values@)),
    {
        HelperCall { method: String::from_str(method), args: HelperArgs::Positional(values) }
    }

    /// `method({ key: value, ... })`.
    pub fn object(method: &str, entries: Vec<(String, HelperValue)>) -> (r: Self)
        ensures
            r@ == object_call(method@, entries_view(entries@)),
    {
        HelperCall { method: String::from_str(method), args: HelperArgs::Object(entries) }
    }
}

/// Appends the property `key: value` to `entries`.
pub fn push_entry(entries: &mut Vec<(String, HelperValue)>, key: &str, value: HelperValue)
    ensures
        entries_view(final(entries)@) == entries_view(old(entries)@).push((key@, value@)),
{
    let ghost before = entries@;
    entries.push((String::from_str(key), value));
    assert(entries_view(entries@) =~= entries_view(before).push((key@, value@)));
}

} // verus!
