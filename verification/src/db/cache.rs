//! The geocache record, its identifier, and the filter and the update that
//! the store is handed.

use vstd::prelude::*;
use vstd::string::*;
use mongodb::bson::oid::ObjectId;

verus! {

/// The value of a hexadecimal digit of either case, and -1 for any other
/// character.
pub open spec fn hex_value(c: char) -> int {
    let code = c as int;
    if 48 <= code <= 57 {
        code - 48
    } else if 97 <= code <= 102 {
        code - 87
    } else if 65 <= code <= 70 {
        code - 55
    } else {
        -1
    }
}

/// The lower-case hexadecimal digit of a value below 16.
pub open spec fn hex_digit(value: int) -> char {
    if value < 10 {
        (48 + value) as u8 as char
    } else {
        (87 + value) as u8 as char
    }
}

/// Whether `text` is the hexadecimal form of twelve bytes.
pub open spec fn is_id_text(text: Seq<char>) -> bool {
    text.len() == 24 && forall|i: int| 0 <= i < 24 ==> hex_value(#[trigger] text[i]) >= 0
}

/// The twelve bytes that `text` writes, two digits to a byte, the high one
/// first.
pub open spec fn id_bytes(text: Seq<char>) -> Seq<u8> {
    Seq::new(12, |i: int| (16 * hex_value(text[2 * i]) + hex_value(text[2 * i + 1])) as u8)
}

/// The hexadecimal form of `bytes`, in lower case.
pub open spec fn id_text(bytes: Seq<u8>) -> Seq<char> {
    Seq::new(
        2 * bytes.len(),
        |i: int|
            if i % 2 == 0 {
                hex_digit(bytes[i / 2] as int / 16)
            } else {
                hex_digit(bytes[i / 2] as int % 16)
            },
    )
}

/// Identifier of a record, as the store assigns it: twelve bytes.
#[derive(Debug, Clone, Copy, PartialEq, Eq)]
pub struct CacheId {
    pub bytes: [u8; 12],
}

/// `ObjectId::parse_str`, then `ObjectId::bytes`: accepts exactly the texts
/// of 24 hexadecimal digits, of either case, and reads each pair of digits
/// as one byte. The error is dropped.
#[verifier::external_body]
fn parse_object_id(text: &str) -> (res: Option<[u8; 12]>)
    ensures
        res.is_some() == is_id_text(text@),
        res matches Some(bytes) ==> bytes@ == id_bytes(text@),
{
    match ObjectId::parse_str(text) {
        Ok(oid) => Some(oid.bytes()),
        Err(_) => None,
    }
}

/// `ObjectId::from_bytes`, then `ObjectId::to_hex`: writes each byte as two
/// lower-case hexadecimal digits, the high one first.
#[verifier::external_body]
fn object_id_hex(bytes: [u8; 12]) -> (res: String)
    ensures
        res@ == id_text(bytes@),
{
    ObjectId::from_bytes(bytes).to_hex()
}

impl CacheId {
    /// Reads an identifier from its hexadecimal form; `None` where `text` is
    /// not 24 hexadecimal digits.
    pub fn parse_str(text: &str) -> (res: Option<CacheId>)
        ensures
            res.is_some() == is_id_text(text@),
            res matches Some(id) ==> id.bytes@ == id_bytes(text@),
    {
        match parse_object_id(text) {
            Some(bytes) => Some(CacheId { bytes }),
            None => None,
        }
    }

    /// The identifier's hexadecimal form.
    pub fn to_hex(&self) -> (res: String)
        ensures
            res@ == id_text(self.bytes@),
    {
        object_id_hex(self.bytes)
    }
}

/// A position. Each coordinate is held as the integer that stands for it in
/// the order of the coordinates: the smaller integer is the smaller
/// coordinate.
#[derive(Debug, Clone, Copy, PartialEq, Eq, Structural)]
pub struct LatLong {
    pub lat: i64,
    pub lng: i64,
}

/// Whether the two corners span a box: the south-west one is not north or
/// east of the north-east one.
pub open spec fn is_box(sw: LatLong, ne: LatLong) -> bool {
    sw.lat <= ne.lat && sw.lng <= ne.lng
}

/// Whether `position` lies in the box that the corners span, edges included.
pub open spec fn in_box(position: LatLong, sw: LatLong, ne: LatLong) -> bool {
    sw.lat <= position.lat <= ne.lat && sw.lng <= position.lng <= ne.lng
}

/// A geocache as the store holds it.
#[derive(Debug, Clone, PartialEq, Eq)]
pub struct Cache {
    /// Assigned by the store on insert; absent before.
    pub id: Option<CacheId>,
    pub position: LatLong,
    pub description: Option<String>,
    pub hint: Option<String>,
    /// The user that created the record.
    pub owner_id: Option<i32>,
}

/// What a record holds, its texts as sequences.
pub struct CacheRecord {
    pub id: Option<CacheId>,
    pub position: LatLong,
    pub description: Option<Seq<char>>,
    pub hint: Option<Seq<char>>,
    pub owner_id: Option<i32>,
}

/// An optional text as a sequence.
pub open spec fn text_of(text: Option<String>) -> Option<Seq<char>> {
    match text {
        Some(t) => Some(t@),
        None => None,
    }
}

impl View for Cache {
    type V = CacheRecord;

    open spec fn view(&self) -> CacheRecord {
        CacheRecord {
            id: self.id,
            position: self.position,
            description: text_of(self.description),
            hint: text_of(self.hint),
            owner_id: self.owner_id,
        }
    }
}

impl CacheRecord {
    /// The record as a listing shows it: identifier and position, nothing
    /// else.
    pub open spec fn projected(self) -> CacheRecord {
        CacheRecord {
            id: self.id,
            position: self.position,
            description: None,
            hint: None,
            owner_id: None,
        }
    }
}

impl Cache {
    /// The record as a listing shows it: identifier and position, nothing
    /// else.
    pub fn projected(&self) -> (res: Cache)
        ensures
            res@ == self@.projected(),
    {
        Cache { id: self.id, position: self.position, description: None, hint: None, owner_id: None }
    }
}

/// Which records a listing asks for.
#[derive(Debug, Clone, Copy, PartialEq, Eq)]
pub struct CacheFilter {
    /// Only records of this owner.
    pub owner_id: Option<i32>,
    /// Only records in the box between these corners, south-west first.
    pub bounds: Option<(LatLong, LatLong)>,
}

impl CacheFilter {
    /// Whether the filter lets `record` through: both conditions hold, as
    /// far as they are set.
    pub open spec fn admits(self, record: CacheRecord) -> bool {
        &&& self.owner_id matches Some(owner) ==> record.owner_id == Some(owner)
        &&& self.bounds matches Some((sw, ne)) ==> in_box(record.position, sw, ne)
    }

    /// The filter of a listing by owner and bounds.
    pub fn new(user_id: Option<i32>, bounds: Option<(LatLong, LatLong)>) -> (res: CacheFilter)
        ensures
            res.owner_id == user_id,
            res.bounds == bounds,
    {
        CacheFilter { owner_id: user_id, bounds }
    }

    /// Whether the filter lets `cache` through.
    pub fn matches(&self, cache: &Cache) -> (res: bool)
        ensures
            res == self.admits(cache@),
    {
        let owner_ok = match self.owner_id {
            Some(owner) => match cache.owner_id {
                Some(found) => found == owner,
                None => false,
            },
            None => true,
        };
        let bounds_ok = match self.bounds {
            Some((sw, ne)) => sw.lat <= cache.position.lat && cache.position.lat <= ne.lat
                && sw.lng <= cache.position.lng && cache.position.lng <= ne.lng,
            None => true,
        };
        owner_ok && bounds_ok
    }
}

/// What a filter asks of one field of a record.
#[derive(Debug, Clone, Copy, PartialEq, Eq, Structural)]
pub enum Condition {
    /// The field holds this value.
    Equals(i32),
    /// The field holds a coordinate between these two, both included.
    Between(i64, i64),
}

/// A condition on the field of this name, as the store names it.
#[derive(Debug, Clone, PartialEq, Eq)]
pub struct FieldCondition {
    pub field: String,
    pub condition: Condition,
}

impl View for FieldCondition {
    type V = (Seq<char>, Condition);

    open spec fn view(&self) -> (Seq<char>, Condition) {
        (self.field@, self.condition)
    }
}

/// Whether `record` meets `condition` on the field named `field`. The owner
/// and the two coordinates of the position are the fields that a condition
/// can be about.
pub open spec fn meets(record: CacheRecord, field: Seq<char>, condition: Condition) -> bool {
    match condition {
        Condition::Equals(value) => field == "owner_id"@ && record.owner_id == Some(value),
        Condition::Between(low, high) => (field == "position.lat"@ && low <= record.position.lat
            <= high) || (field == "position.lng"@ && low <= record.position.lng <= high),
    }
}

impl CacheFilter {
    /// The conditions that the filter puts on the fields of a record: one on
    /// the owner, where it names one, then one on each coordinate, where it
    /// has bounds.
    pub open spec fn conditions_of(self) -> Seq<(Seq<char>, Condition)> {
        (match self.owner_id {
            Some(owner) => seq![("owner_id"@, Condition::Equals(owner))],
            None => seq![],
        }) + (match self.bounds {
            Some((sw, ne)) => seq![
                ("position.lat"@, Condition::Between(sw.lat, ne.lat)),
                ("position.lng"@, Condition::Between(sw.lng, ne.lng)),
            ],
            None => seq![],
        })
    }

    /// The filter as conditions on fields, for the store to apply all of.
    pub fn conditions(&self) -> (res: Vec<FieldCondition>)
        ensures
            res@.len() == self.conditions_of().len(),
            forall|i: int| 0 <= i < res@.len() ==> (#[trigger] res@[i])@ == self.conditions_of()[i],
    {
        let mut res: Vec<FieldCondition> = Vec::new();
        if let Some(owner) = self.owner_id {
            res.push(
                FieldCondition {
                    field: String::from_str("owner_id"),
                    condition: Condition::Equals(owner),
                },
            );
        }
        if let Some((sw, ne)) = self.bounds {
            res.push(
                FieldCondition {
                    field: String::from_str("position.lat"),
                    condition: Condition::Between(sw.lat, ne.lat),
                },
            );
            res.push(
                FieldCondition {
                    field: String::from_str("position.lng"),
                    condition: Condition::Between(sw.lng, ne.lng),
                },
            );
        }
        res
    }

    /// The fields that a listing reads of each record: the identifier and
    /// the position, as the store names them.
    pub fn projection() -> (res: Vec<String>)
        ensures
            res@.len() == 2,
            res@[0]@ == "_id"@,
            res@[1]@ == "position"@,
    {
        let mut res: Vec<String> = Vec::new();
        res.push(String::from_str("_id"));
        res.push(String::from_str("position"));
        res
    }
}

/// An update was asked for a record that has no identifier.
#[derive(Debug, Clone, Copy, PartialEq, Eq, Structural)]
pub struct MissingIdentifier;

/// What an edit writes to the record `id`: position, description and hint.
/// It has no owner to write.
#[derive(Debug, Clone, PartialEq, Eq)]
pub struct CacheUpdate {
    pub id: CacheId,
    pub position: LatLong,
    pub description: Option<String>,
    pub hint: Option<String>,
}

/// The value that an update writes to a field.
#[derive(Debug, Clone, PartialEq, Eq)]
pub enum FieldValue {
    /// A coordinate, held as [`LatLong`] holds it.
    Coordinate(i64),
    /// A text, or the absence of one.
    Text(Option<String>),
}

/// A field value with its text as a sequence.
pub enum FieldContent {
    Coordinate(i64),
    Text(Option<Seq<char>>),
}

impl View for FieldValue {
    type V = FieldContent;

    open spec fn view(&self) -> FieldContent {
        match self {
            FieldValue::Coordinate(key) => FieldContent::Coordinate(*key),
            FieldValue::Text(text) => FieldContent::Text(text_of(*text)),
        }
    }
}

/// One field of an update, as the store names it, and what is written there.
#[derive(Debug, Clone, PartialEq, Eq)]
pub struct Assignment {
    pub field: String,
    pub value: FieldValue,
}

impl View for Assignment {
    type V = (Seq<char>, FieldContent);

    open spec fn view(&self) -> (Seq<char>, FieldContent) {
        (self.field@, self.value@)
    }
}

impl CacheUpdate {
    /// The fields that the update writes, with their values: the two
    /// coordinates, the description and the hint.
    pub open spec fn assignments_of(&self) -> Seq<(Seq<char>, FieldContent)> {
        seq![
            ("position.lat"@, FieldContent::Coordinate(self.position.lat)),
            ("position.lng"@, FieldContent::Coordinate(self.position.lng)),
            ("description"@, FieldContent::Text(text_of(self.description))),
            ("hint"@, FieldContent::Text(text_of(self.hint))),
        ]
    }

    /// The update as assignments to fields, for the store to set on the
    /// record that `id` names.
    pub fn assignments(&self) -> (res: Vec<Assignment>)
        ensures
            res@.len() == 4,
            forall|i: int| 0 <= i < 4 ==> (#[trigger] res@[i])@ == self.assignments_of()[i],
    {
        let mut res: Vec<Assignment> = Vec::new();
        res.push(
            Assignment {
                field: String::from_str("position.lat"),
                value: FieldValue::Coordinate(self.position.lat),
            },
        );
        res.push(
            Assignment {
                field: String::from_str("position.lng"),
                value: FieldValue::Coordinate(self.position.lng),
            },
        );
        res.push(
            Assignment {
                field: String::from_str("description"),
                value: FieldValue::Text(self.description.clone()),
            },
        );
        res.push(
            Assignment {
                field: String::from_str("hint"),
                value: FieldValue::Text(self.hint.clone()),
            },
        );
        res
    }

    /// The stored record after the update: position, description and hint
    /// are the update's, identifier and owner stay.
    pub open spec fn applied(&self, stored: CacheRecord) -> CacheRecord {
        CacheRecord {
            id: stored.id,
            position: self.position,
            description: text_of(self.description),
            hint: text_of(self.hint),
            owner_id: stored.owner_id,
        }
    }

    /// The update that writes `cache` over the record it names. A cache
    /// without identifier names none.
    pub fn new(cache: Cache) -> (res: Result<CacheUpdate, MissingIdentifier>)
        ensures
            res.is_ok() == cache.id.is_some(),
            res matches Ok(update) ==> Some(update.id) == cache.id && update.position
                == cache.position && text_of(update.description) == cache@.description && text_of(
                update.hint,
            ) == cache@.hint,
    {
        match cache.id {
            Some(id) => Ok(
                CacheUpdate {
                    id,
                    position: cache.position,
                    description: cache.description,
                    hint: cache.hint,
                },
            ),
            None => Err(MissingIdentifier),
        }
    }

    /// Writes the update over `stored`.
    pub fn apply(&self, stored: Cache) -> (res: Cache)
        ensures
            res@ == self.applied(stored@),
    {
        Cache {
            id: stored.id,
            position: self.position,
            description: self.description.clone(),
            hint: self.hint.clone(),
            owner_id: stored.owner_id,
        }
    }
}

} // verus!

verus! {

/// Reading the hexadecimal form of twelve bytes gives the bytes back: an
/// identifier that was written out is accepted again, as the same one.
pub proof fn lemma_id_text_round_trip(bytes: Seq<u8>)
    requires
        bytes.len() == 12,
    ensures
        is_id_text(id_text(bytes)),
        id_bytes(id_text(bytes)) == bytes,
{
    let text = id_text(bytes);
    assert forall|v: int| 0 <= v < 16 implies hex_value(hex_digit(v)) == v by {
        if v < 10 {
            assert((48 + v) as u8 as char as int == 48 + v);
        } else {
            assert((87 + v) as u8 as char as int == 87 + v);
        }
    }
    assert forall|i: int| 0 <= i < 24 implies hex_value(#[trigger] text[i]) >= 0 by {
        let b = bytes[i / 2] as int;
        assert(0 <= b / 16 < 16 && 0 <= b % 16 < 16);
    }
    assert forall|i: int| 0 <= i < 12 implies id_bytes(text)[i] == bytes[i] by {
        let b = bytes[i] as int;
        assert((2 * i) / 2 == i && (2 * i + 1) / 2 == i);
        assert((2 * i) % 2 == 0 && (2 * i + 1) % 2 == 1);
        assert(0 <= b / 16 < 16 && 0 <= b % 16 < 16);
        assert(text[2 * i] == hex_digit(b / 16));
        assert(text[2 * i + 1] == hex_digit(b % 16));
        assert(16 * (b / 16) + b % 16 == b);
    }
    assert(id_bytes(text) =~= bytes);
}

/// An update leaves the identifier and the owner of the record that it is
/// written over as they were, whatever it holds.
pub proof fn lemma_update_keeps_owner(update: CacheUpdate, stored: CacheRecord)
    ensures
        update.applied(stored).owner_id == stored.owner_id,
        update.applied(stored).id == stored.id,
{
}

/// No field that an update writes is the owner's.
pub proof fn lemma_update_writes_no_owner(update: CacheUpdate)
    ensures
        forall|i: int|
            0 <= i < update.assignments_of().len() ==> (#[trigger] update.assignments_of()[i]).0
                != "owner_id"@,
{
    reveal_strlit("owner_id");
    reveal_strlit("position.lat");
    reveal_strlit("position.lng");
    reveal_strlit("description");
    reveal_strlit("hint");
    assert("owner_id"@.len() == 8);
    assert("position.lat"@.len() == 12);
    assert("position.lng"@.len() == 12);
    assert("description"@.len() == 11);
    assert("hint"@.len() == 4);
}

/// A record meets every condition of a filter exactly when the filter
/// admits it.
pub proof fn lemma_conditions_admit(filter: CacheFilter, record: CacheRecord)
    ensures
        filter.admits(record) == (forall|i: int|
            0 <= i < filter.conditions_of().len() ==> meets(
                record,
                (#[trigger] filter.conditions_of()[i]).0,
                filter.conditions_of()[i].1,
            )),
{
    reveal_strlit("owner_id");
    reveal_strlit("position.lat");
    reveal_strlit("position.lng");
    assert("position.lat"@[10] == 'a');
    assert("position.lng"@[10] == 'n');
    assert("position.lat"@ != "position.lng"@);
    let conditions = filter.conditions_of();
    let all = forall|i: int|
        0 <= i < conditions.len() ==> meets(record, (#[trigger] conditions[i]).0, conditions[i].1);
    match (filter.owner_id, filter.bounds) {
        (Some(owner), Some((sw, ne))) => {
            assert(conditions.len() == 3);
            assert(conditions[0] == ("owner_id"@, Condition::Equals(owner)));
            assert(conditions[1] == ("position.lat"@, Condition::Between(sw.lat, ne.lat)));
            assert(conditions[2] == ("position.lng"@, Condition::Between(sw.lng, ne.lng)));
            if all {
                assert(meets(record, conditions[0].0, conditions[0].1));
                assert(meets(record, conditions[1].0, conditions[1].1));
                assert(meets(record, conditions[2].0, conditions[2].1));
            }
        },
        (Some(owner), None) => {
            assert(conditions.len() == 1);
            assert(conditions[0] == ("owner_id"@, Condition::Equals(owner)));
            if all {
                assert(meets(record, conditions[0].0, conditions[0].1));
            }
        },
        (None, Some((sw, ne))) => {
            assert(conditions.len() == 2);
            assert(conditions[0] == ("position.lat"@, Condition::Between(sw.lat, ne.lat)));
            assert(conditions[1] == ("position.lng"@, Condition::Between(sw.lng, ne.lng)));
            if all {
                assert(meets(record, conditions[0].0, conditions[0].1));
                assert(meets(record, conditions[1].0, conditions[1].1));
            }
        },
        (None, None) => {
            assert(conditions.len() == 0);
        },
    }
}

/// A projected record has no description, no hint and no owner, and keeps
/// identifier and position.
pub proof fn lemma_projected_fields(record: CacheRecord)
    ensures
        record.projected().description.is_none(),
        record.projected().hint.is_none(),
        record.projected().owner_id.is_none(),
        record.projected().id == record.id,
        record.projected().position == record.position,
{
}

} // verus!
