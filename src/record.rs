//! The attribute record of one span: its name and the attribute writes made
//! to it, in order. A later write to a key overrides an earlier one.
use vstd::prelude::*;
use vstd::string::StringExecFns;
use crate::config::REDACTED;
use crate::text::text_eq;

verus! {

/// A double-precision number carried by its IEEE-754 bit pattern.
#[derive(Debug, Clone, Copy, PartialEq, Eq, Structural, Hash)]
pub struct Float64 {
    pub bits: u64,
}

impl Float64 {
    pub fn from_bits(bits: u64) -> (r: Float64)
        ensures
            r.bits == bits,
    {
        Float64 { bits }
    }

    pub fn to_bits(&self) -> (r: u64)
        ensures
            r == self.bits,
    {
        self.bits
    }
}

/// The value of an attribute.
#[derive(Debug, Clone, PartialEq)]
pub enum AttributeValue {
    Str(String),
    Int(i64),
    Float(Float64),
}

/// What an attribute value holds.
pub enum ValueModel {
    Str(Seq<char>),
    Int(i64),
    Float(Float64),
}

impl View for AttributeValue {
    type V = ValueModel;

    open spec fn view(&self) -> ValueModel {
        match self {
            AttributeValue::Str(s) => ValueModel::Str(s@),
            AttributeValue::Int(i) => ValueModel::Int(*i),
            AttributeValue::Float(f) => ValueModel::Float(*f),
        }
    }
}

/// A key and its value.
#[derive(Debug, Clone, PartialEq)]
pub struct Attribute {
    pub key: String,
    pub value: AttributeValue,
}

pub struct AttributeModel {
    pub key: Seq<char>,
    pub value: ValueModel,
}

impl View for Attribute {
    type V = AttributeModel;

    open spec fn view(&self) -> AttributeModel {
        AttributeModel { key: self.key@, value: self.value@ }
    }
}

/// What a span record holds: its name, the writes made to it in order, and
/// whether GenAI-convention attributes go to it.
pub struct SpanModel {
    pub name: Seq<char>,
    pub attributes: Seq<AttributeModel>,
    pub emit_gen_ai: bool,
}

pub open spec fn str_attr(key: Seq<char>, value: Seq<char>) -> AttributeModel {
    AttributeModel { key, value: ValueModel::Str(value) }
}

pub open spec fn int_attr(key: Seq<char>, value: i64) -> AttributeModel {
    AttributeModel { key, value: ValueModel::Int(value) }
}

pub open spec fn float_attr(key: Seq<char>, value: Float64) -> AttributeModel {
    AttributeModel { key, value: ValueModel::Float(value) }
}

/// `value`, or the redaction marker when `hidden`.
pub open spec fn redact(value: Seq<char>, hidden: bool) -> Seq<char> {
    if hidden {
        REDACTED@
    } else {
        value
    }
}

/// One string attribute when the field is set, none otherwise.
pub open spec fn opt_str(key: Seq<char>, value: Option<Seq<char>>, hidden: bool) -> Seq<AttributeModel> {
    match value {
        Some(v) => seq![str_attr(key, redact(v, hidden))],
        None => Seq::empty(),
    }
}

pub open spec fn opt_int(key: Seq<char>, value: Option<i64>) -> Seq<AttributeModel> {
    match value {
        Some(v) => seq![int_attr(key, v)],
        None => Seq::empty(),
    }
}

pub open spec fn opt_float(key: Seq<char>, value: Option<Float64>) -> Seq<AttributeModel> {
    match value {
        Some(v) => seq![float_attr(key, v)],
        None => Seq::empty(),
    }
}

/// The value last written to `key`, if any.
pub open spec fn last_value(attributes: Seq<AttributeModel>, key: Seq<char>) -> Option<ValueModel>
    decreases attributes.len(),
{
    if attributes.len() == 0 {
        None
    } else if attributes.last().key == key {
        Some(attributes.last().value)
    } else {
        last_value(attributes.drop_last(), key)
    }
}

/// The attributes written to one span.
#[derive(Debug, Clone)]
pub struct SpanRecord {
    name: String,
    attributes: Vec<Attribute>,
    emit_gen_ai: bool,
}

impl View for SpanRecord {
    type V = SpanModel;

    closed spec fn view(&self) -> SpanModel {
        SpanModel {
            name: self.name@,
            attributes: self.attributes@.map_values(|a: Attribute| a@),
            emit_gen_ai: self.emit_gen_ai,
        }
    }
}

impl SpanRecord {
    /// A record with no attributes yet.
    pub fn new(name: String, emit_gen_ai: bool) -> (r: SpanRecord)
        ensures
            r@ == (SpanModel { name: name@, attributes: Seq::empty(), emit_gen_ai }),
    {
        let r = SpanRecord { name, attributes: Vec::new(), emit_gen_ai };
        assert(r@.attributes =~= Seq::<AttributeModel>::empty());
        r
    }

    /// The span's name.
    pub fn name(&self) -> (r: &str)
        ensures
            r@ == self@.name,
    {
        self.name.as_str()
    }

    /// Whether GenAI-convention attributes go to this span.
    pub fn emits_gen_ai(&self) -> (r: bool)
        ensures
            r == self@.emit_gen_ai,
    {
        self.emit_gen_ai
    }

    /// The writes made so far, in order.
    pub fn attributes(&self) -> (r: &Vec<Attribute>)
        ensures
            r@.map_values(|a: Attribute| a@) == self@.attributes,
    {
        &self.attributes
    }

    /// The value last written to `key`, if any.
    pub fn get(&self, key: &str) -> (r: Option<&AttributeValue>)
        ensures
            match r {
                Some(v) => last_value(self@.attributes, key@) == Some(v@),
                None => last_value(self@.attributes, key@) is None,
            },
    {
        let ghost all = self@.attributes;
        let mut i: usize = self.attributes.len();
        assert(all.take(i as int) =~= all);
        while i > 0
            invariant
                i <= self.attributes.len(),
                all == self@.attributes,
                all.len() == self.attributes.len(),
                last_value(all, key@) == last_value(all.take(i as int), key@),
            decreases i,
        {
            assert(all.take(i as int).drop_last() =~= all.take(i - 1));
            if text_eq(self.attributes[i - 1].key.as_str(), key) {
                return Some(&self.attributes[i - 1].value);
            }
            i = i - 1;
        }
        assert(all.take(0) =~= Seq::<AttributeModel>::empty());
        None
    }

    /// Writes `value` to `key`.
    pub fn set_attribute(&mut self, key: String, value: AttributeValue)
        ensures
            final(self)@ == (SpanModel {
                attributes: old(self)@.attributes.push(AttributeModel { key: key@, value: value@ }),
                ..old(self)@
            }),
    {
        let ghost before = self.attributes@;
        let a = Attribute { key, value };
        self.attributes.push(a);
        assert(self.attributes@ =~= before.push(a));
        assert(self.attributes@.map_values(|a: Attribute| a@) =~= before.map_values(
            |a: Attribute| a@,
        ).push(a@));
    }

    /// Writes the string `value` to `key`, or the redaction marker when
    /// `hidden`.
    pub fn set_str(&mut self, key: &str, value: &str, hidden: bool)
        ensures
            final(self)@ == (SpanModel {
                attributes: old(self)@.attributes.push(str_attr(key@, redact(value@, hidden))),
                ..old(self)@
            }),
    {
        let v = if hidden {
            String::from_str(REDACTED)
        } else {
            String::from_str(value)
        };
        self.set_attribute(String::from_str(key), AttributeValue::Str(v));
    }

    pub fn set_int(&mut self, key: &str, value: i64)
        ensures
            final(self)@ == (SpanModel {
                attributes: old(self)@.attributes.push(int_attr(key@, value)),
                ..old(self)@
            }),
    {
        self.set_attribute(String::from_str(key), AttributeValue::Int(value));
    }

    pub fn set_float(&mut self, key: &str, value: Float64)
        ensures
            final(self)@ == (SpanModel {
                attributes: old(self)@.attributes.push(float_attr(key@, value)),
                ..old(self)@
            }),
    {
        self.set_attribute(String::from_str(key), AttributeValue::Float(value));
    }

    /// Writes a string field when it is set.
    pub fn set_opt_str(&mut self, key: &str, value: &Option<String>, hidden: bool)
        ensures
            final(self)@ == (SpanModel {
                attributes: old(self)@.attributes + opt_str(key@, value.deep_view(), hidden),
                ..old(self)@
            }),
    {
        match value {
            Some(v) => {
                self.set_str(key, v.as_str(), hidden);
            },
            None => {},
        }
        assert(final(self)@.attributes =~= old(self)@.attributes + opt_str(
            key@,
            value.deep_view(),
            hidden,
        ));
    }

    pub fn set_opt_int(&mut self, key: &str, value: Option<i64>)
        ensures
            final(self)@ == (SpanModel {
                attributes: old(self)@.attributes + opt_int(key@, value),
                ..old(self)@
            }),
    {
        match value {
            Some(v) => {
                self.set_int(key, v);
            },
            None => {},
        }
        assert(final(self)@.attributes =~= old(self)@.attributes + opt_int(key@, value));
    }

    pub fn set_opt_float(&mut self, key: &str, value: Option<Float64>)
        ensures
            final(self)@ == (SpanModel {
                attributes: old(self)@.attributes + opt_float(key@, value),
                ..old(self)@
            }),
    {
        match value {
            Some(v) => {
                self.set_float(key, v);
            },
            None => {},
        }
        assert(final(self)@.attributes =~= old(self)@.attributes + opt_float(key@, value));
    }
}

} // verus!
