//! What an intent parser reports, and how slot values are read from it.
//!
//! A parsed intent carries an optional intent name and an ordered list of
//! slots. Each slot value is a flat map from field names to scalars. Reading
//! never fails: a field that is absent or of another type yields a default.

use vstd::prelude::*;
use vstd::string::StringExecFns;
use crate::number::Number;
use crate::text::same_text;

verus! {

/// One field of a slot value.
#[derive(Debug)]
pub enum Scalar {
    /// An integer that fits 64 signed bits.
    Integer(i64),
    /// Any other number, as the bit pattern of its binary64 value.
    Real(u64),
    /// A string.
    Text(String),
    /// Anything else: null, a boolean, a nested structure.
    Other,
}

/// The mathematical content of a [`Scalar`].
pub ghost enum ScalarModel {
    Integer(i64),
    Real(u64),
    Text(Seq<char>),
    Other,
}

impl View for Scalar {
    type V = ScalarModel;

    open spec fn view(&self) -> ScalarModel {
        match *self {
            Scalar::Integer(i) => ScalarModel::Integer(i),
            Scalar::Real(bits) => ScalarModel::Real(bits),
            Scalar::Text(s) => ScalarModel::Text(s@),
            Scalar::Other => ScalarModel::Other,
        }
    }
}

/// A named field; a later field of the same name shadows an earlier one.
#[derive(Debug)]
struct Field {
    name: String,
    value: Scalar,
}

/// The map that a list of fields denotes.
spec fn fields_map(fields: Seq<Field>) -> Map<Seq<char>, ScalarModel>
    decreases fields.len(),
{
    if fields.len() == 0 {
        Map::empty()
    } else {
        fields_map(fields.drop_last()).insert(fields.last().name@, fields.last().value@)
    }
}

proof fn lemma_last_binding(fields: Seq<Field>, name: Seq<char>, i: int)
    requires
        0 <= i < fields.len(),
        fields[i].name@ == name,
        forall|j: int| i < j < fields.len() ==> fields[j].name@ != name,
    ensures
        fields_map(fields).contains_key(name),
        fields_map(fields)[name] == fields[i].value@,
    decreases fields.len(),
{
    if i < fields.len() - 1 {
        lemma_last_binding(fields.drop_last(), name, i);
    }
}

proof fn lemma_no_binding(fields: Seq<Field>, name: Seq<char>)
    requires
        forall|j: int| 0 <= j < fields.len() ==> fields[j].name@ != name,
    ensures
        !fields_map(fields).contains_key(name),
    decreases fields.len(),
{
    if fields.len() > 0 {
        lemma_no_binding(fields.drop_last(), name);
    }
}

/// The structured value of a slot: a map from field names to scalars.
#[derive(Debug)]
pub struct SlotValue {
    fields: Vec<Field>,
}

impl View for SlotValue {
    type V = Map<Seq<char>, ScalarModel>;

    closed spec fn view(&self) -> Map<Seq<char>, ScalarModel> {
        fields_map(self.fields@)
    }
}

impl SlotValue {
    /// The empty value.
    pub fn new() -> (r: SlotValue)
        ensures
            r@ == Map::<Seq<char>, ScalarModel>::empty(),
    {
        SlotValue { fields: Vec::new() }
    }

    /// Binds `name` to `value`, replacing what it was bound to.
    pub fn insert(&mut self, name: &str, value: Scalar)
        ensures
            final(self)@ == old(self)@.insert(name@, value@),
    {
        let field = Field { name: String::from_str(name), value };
        self.fields.push(field);
        assert(self.fields@.drop_last() =~= old(self).fields@);
    }

    /// The scalar bound to `name`, if any.
    pub fn get(&self, name: &str) -> (r: Option<&Scalar>)
        ensures
            match r {
                Some(v) => self@.contains_key(name@) && self@[name@] == v@,
                None => !self@.contains_key(name@),
            },
    {
        let mut i: usize = self.fields.len();
        while i > 0
            invariant
                i <= self.fields.len(),
                forall|j: int| i <= j < self.fields.len() ==> self.fields[j].name@ != name@,
            decreases i,
        {
            i = i - 1;
            if same_text(self.fields[i].name.as_str(), name) {
                proof {
                    lemma_last_binding(self.fields@, name@, i as int);
                }
                return Some(&self.fields[i].value);
            }
        }
        proof {
            lemma_no_binding(self.fields@, name@);
        }
        None
    }
}

/// A typed parameter found in the text.
#[derive(Debug)]
pub struct Slot {
    pub entity: String,
    pub slot_name: String,
    pub value: SlotValue,
}

/// The mathematical content of a [`Slot`].
pub ghost struct SlotModel {
    pub entity: Seq<char>,
    pub slot_name: Seq<char>,
    pub value: Map<Seq<char>, ScalarModel>,
}

impl View for Slot {
    type V = SlotModel;

    open spec fn view(&self) -> SlotModel {
        SlotModel { entity: self.entity@, slot_name: self.slot_name@, value: self.value@ }
    }
}

/// The outcome of intent parsing: the intent's name, if one was recognised,
/// and the slots in the order the parser gave them.
#[derive(Debug)]
pub struct ParsedIntent {
    pub intent_name: Option<String>,
    pub slots: Vec<Slot>,
}

/// The mathematical content of a [`ParsedIntent`].
pub ghost struct IntentModel {
    pub intent_name: Option<Seq<char>>,
    pub slots: Seq<SlotModel>,
}

impl View for ParsedIntent {
    type V = IntentModel;

    open spec fn view(&self) -> IntentModel {
        IntentModel {
            intent_name: match self.intent_name {
                Some(name) => Some(name@),
                None => None,
            },
            slots: Seq::new(self.slots@.len(), |i: int| self.slots@[i]@),
        }
    }
}

/// Whether a slot has the given entity and slot name.
pub open spec fn slot_matches(slot: SlotModel, entity: Seq<char>, slot_name: Seq<char>) -> bool {
    slot.entity == entity && slot.slot_name == slot_name
}

/// The index of the first slot from `start` on with the given entity and
/// slot name; the number of slots where there is none.
pub open spec fn first_match_from(
    slots: Seq<SlotModel>,
    entity: Seq<char>,
    slot_name: Seq<char>,
    start: int,
) -> int
    decreases slots.len() - start,
{
    if start < 0 || start >= slots.len() {
        slots.len() as int
    } else if slot_matches(slots[start], entity, slot_name) {
        start
    } else {
        first_match_from(slots, entity, slot_name, start + 1)
    }
}

/// The value of the first slot with the given entity and slot name.
pub open spec fn slot_value(
    slots: Seq<SlotModel>,
    entity: Seq<char>,
    slot_name: Seq<char>,
) -> Option<Map<Seq<char>, ScalarModel>> {
    let found = first_match_from(slots, entity, slot_name, 0);
    if found < slots.len() {
        Some(slots[found].value)
    } else {
        None
    }
}

/// The name under which an intent is dispatched: its own, or `none`.
pub open spec fn command_text(intent_name: Option<Seq<char>>) -> Seq<char> {
    match intent_name {
        Some(name) => name,
        None => "none"@,
    }
}

/// The number bound to `name`: zero unless the field holds a number.
pub open spec fn number_field(value: Map<Seq<char>, ScalarModel>, name: Seq<char>) -> Number {
    if value.contains_key(name) {
        match value[name] {
            ScalarModel::Integer(i) => Number::Integer(i as i128),
            ScalarModel::Real(bits) => Number::Real(bits),
            _ => Number::Integer(0),
        }
    } else {
        Number::Integer(0)
    }
}

/// The text bound to `name`: empty unless the field holds a string.
pub open spec fn text_field(value: Map<Seq<char>, ScalarModel>, name: Seq<char>) -> Seq<char> {
    if value.contains_key(name) {
        match value[name] {
            ScalarModel::Text(s) => s,
            _ => Seq::empty(),
        }
    } else {
        Seq::empty()
    }
}

/// The integer bound to `name`: zero unless the field holds an integer.
pub open spec fn integer_field(value: Map<Seq<char>, ScalarModel>, name: Seq<char>) -> int {
    if value.contains_key(name) {
        match value[name] {
            ScalarModel::Integer(i) => i as int,
            _ => 0,
        }
    } else {
        0
    }
}

/// The length of a duration in seconds. A month counts as 30 days and a year
/// as 365 days.
pub open spec fn duration_seconds(value: Map<Seq<char>, ScalarModel>) -> int {
    integer_field(value, "seconds"@) + integer_field(value, "minutes"@) * 60 + integer_field(
        value,
        "hours"@,
    ) * 3600 + integer_field(value, "days"@) * 86400 + integer_field(value, "weeks"@) * 604800
        + integer_field(value, "months"@) * 2592000 + integer_field(value, "years"@) * 31536000
}

/// Reads parsed intents.
#[derive(Debug)]
pub struct NLU {}

impl NLU {
    fn integer_of(value: &SlotValue, name: &str) -> (r: i64)
        ensures
            r == integer_field(value@, name@),
    {
        match value.get(name) {
            Some(Scalar::Integer(i)) => *i,
            _ => 0,
        }
    }

    /// The name under which the intent is dispatched.
    pub fn get_command(&self, parsed: &ParsedIntent) -> (r: String)
        ensures
            r@ == command_text(parsed@.intent_name),
    {
        match &parsed.intent_name {
            Some(name) => name.clone(),
            None => String::from_str("none"),
        }
    }

    /// Whether the intent has exactly `count` slots.
    pub fn has_expected_slots(&self, parsed: &ParsedIntent, count: usize) -> (r: bool)
        ensures
            r == (parsed@.slots.len() == count),
    {
        parsed.slots.len() == count
    }

    /// The value of the first slot with the given entity and slot name.
    pub fn get_slot_value<'a>(
        &self,
        parsed: &'a ParsedIntent,
        entity: &str,
        slot_name: &str,
    ) -> (r: Option<&'a SlotValue>)
        ensures
            match r {
                Some(v) => slot_value(parsed@.slots, entity@, slot_name@) == Some(v@),
                None => slot_value(parsed@.slots, entity@, slot_name@) is None,
            },
    {
        let mut i: usize = 0;
        while i < parsed.slots.len()
            invariant
                i <= parsed.slots.len(),
                first_match_from(parsed@.slots, entity@, slot_name@, 0) == first_match_from(
                    parsed@.slots,
                    entity@,
                    slot_name@,
                    i as int,
                ),
            decreases parsed.slots.len() - i,
        {
            assert(parsed@.slots[i as int] == parsed.slots@[i as int]@);
            if same_text(parsed.slots[i].entity.as_str(), entity) && same_text(
                parsed.slots[i].slot_name.as_str(),
                slot_name,
            ) {
                return Some(&parsed.slots[i].value);
            }
            i = i + 1;
        }
        None
    }

    /// The number in the field `value`, or zero.
    pub fn get_float(&self, value: Option<&SlotValue>) -> (r: Number)
        ensures
            r == match value {
                Some(v) => number_field(v@, "value"@),
                None => Number::Integer(0),
            },
    {
        match value {
            Some(v) => match v.get("value") {
                Some(Scalar::Integer(i)) => Number::Integer(*i as i128),
                Some(Scalar::Real(bits)) => Number::Real(*bits),
                _ => Number::Integer(0),
            },
            None => Number::Integer(0),
        }
    }

    /// The text in the field `value`, or the empty string.
    pub fn get_string(&self, value: Option<&SlotValue>) -> (r: String)
        ensures
            r@ == match value {
                Some(v) => text_field(v@, "value"@),
                None => Seq::<char>::empty(),
            },
    {
        self.get_string_custom(value, "value")
    }

    /// The text in the field `custom`, or the empty string.
    pub fn get_string_custom(&self, value: Option<&SlotValue>, custom: &str) -> (r: String)
        ensures
            r@ == match value {
                Some(v) => text_field(v@, custom@),
                None => Seq::<char>::empty(),
            },
    {
        match value {
            Some(v) => match v.get(custom) {
                Some(Scalar::Text(s)) => s.clone(),
                _ => String::new(),
            },
            None => String::new(),
        }
    }

    /// The length in seconds of a duration given by its fields `seconds`,
    /// `minutes`, `hours`, `days`, `weeks`, `months` and `years`.
    pub fn duration_as_seconds(&self, timer_values: &SlotValue) -> (r: i128)
        ensures
            r == duration_seconds(timer_values@),
    {
        let seconds: i128 = Self::integer_of(timer_values, "seconds") as i128;
        let minutes: i128 = Self::integer_of(timer_values, "minutes") as i128;
        let hours: i128 = Self::integer_of(timer_values, "hours") as i128;
        let days: i128 = Self::integer_of(timer_values, "days") as i128;
        let weeks: i128 = Self::integer_of(timer_values, "weeks") as i128;
        let months: i128 = Self::integer_of(timer_values, "months") as i128;
        let years: i128 = Self::integer_of(timer_values, "years") as i128;
        seconds + minutes * 60 + hours * 3600 + days * 86400 + weeks * 604800 + months * 2592000
            + years * 31536000
    }
}

} // verus!
