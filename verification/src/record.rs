//! The stored form of a keypair: a JSON object of two named byte arrays.
//!
//! `serde_json` reads and writes the JSON text. What a record must hold to
//! count as a keypair is decided here.

use crate::error::KeypairError;
use crate::keypair::Keypair;
use vstd::prelude::*;
use vstd::slice::slice_to_vec;
use vstd::string::StringExecFns;

verus! {

/// Name of the field that stores the private key.
pub const PRIVATE_KEY_FIELD: &'static str = "private_key";

/// Name of the field that stores the public key.
pub const PUBLIC_KEY_FIELD: &'static str = "public_key";

/// One named field of a record.
#[derive(Debug, Clone, PartialEq, Eq)]
pub struct Field {
    /// The field's name.
    pub name: String,
    /// The bytes that the field holds.
    pub value: Vec<u8>,
}

impl View for Field {
    type V = (Seq<char>, Seq<u8>);

    open spec fn view(&self) -> (Seq<char>, Seq<u8>) {
        (self.name@, self.value@)
    }
}

/// A record as mathematics: its fields in order, each a name and its bytes.
pub type Record = Seq<(Seq<char>, Seq<u8>)>;

/// The record that `fields` stand for.
pub open spec fn record_view(fields: Seq<Field>) -> Record {
    fields.map_values(|field: Field| field@)
}

/// The bytes of the first field of `record` called `name`.
pub open spec fn field_value(record: Record, name: Seq<char>) -> Option<Seq<u8>>
    decreases record.len(),
{
    if record.len() == 0 {
        None
    } else if record[0].0 == name {
        Some(record[0].1)
    } else {
        field_value(record.drop_first(), name)
    }
}

/// Whether `record` has a field called `name` whose first occurrence holds
/// exactly 32 bytes.
pub open spec fn holds_key(record: Record, name: Seq<char>) -> bool {
    field_value(record, name) matches Some(bytes) && bytes.len() == 32
}

/// The private key that `record` stores, if `record` has the shape of a
/// stored keypair: exactly two fields, a private key and a public key, of 32
/// bytes each. What the public key field holds beyond its length is of no
/// account.
pub open spec fn stored_private_key(record: Record) -> Option<Seq<u8>> {
    if record.len() == 2 && holds_key(record, PRIVATE_KEY_FIELD@) && holds_key(
        record,
        PUBLIC_KEY_FIELD@,
    ) {
        field_value(record, PRIVATE_KEY_FIELD@)
    } else {
        None
    }
}

/// Index of the first of `fields` called `name`.
pub fn find_field(fields: &Vec<Field>, name: &str) -> (found: Option<usize>)
    ensures
        match found {
            Some(at) => at < fields.len() && field_value(record_view(fields@), name@) == Some(
                fields[at as int].value@,
            ),
            None => field_value(record_view(fields@), name@) is None,
        },
{
    let wanted = String::from_str(name);
    let ghost record = record_view(fields@);
    let mut i: usize = 0;
    assert(record.skip(0) == record);
    while i < fields.len()
        invariant
            i <= fields.len(),
            wanted@ == name@,
            record == record_view(fields@),
            field_value(record, name@) == field_value(record.skip(i as int), name@),
        decreases fields.len() - i,
    {
        assert(record.skip(i as int)[0] == fields[i as int]@);
        if fields[i].name == wanted {
            return Some(i);
        }
        assert(record.skip(i as int).drop_first() == record.skip(i + 1));
        i += 1;
    }
    None
}

/// The 32 bytes of `bytes` as a key, where there are 32 of them.
pub fn key_from_bytes(bytes: &[u8]) -> (key: Option<[u8; 32]>)
    ensures
        match key {
            Some(key) => key@ == bytes@,
            None => bytes@.len() != 32,
        },
{
    if bytes.len() != 32 {
        return None;
    }
    let mut key: [u8; 32] = [0; 32];
    let mut i: usize = 0;
    while i < 32
        invariant
            i <= 32,
            bytes@.len() == 32,
            forall|j: int| 0 <= j < i ==> key@[j] == bytes@[j],
        decreases 32 - i,
    {
        key[i] = bytes[i];
        i += 1;
    }
    assert(key@ =~= bytes@);
    Some(key)
}

impl Keypair {
    /// The record that stores this keypair: the private key, then the public
    /// key.
    pub open spec fn record(&self) -> Record {
        seq![(PRIVATE_KEY_FIELD@, self.private_key@), (PUBLIC_KEY_FIELD@, self.public_key@)]
    }

    /// The fields that store this keypair.
    pub fn to_record(&self) -> (fields: Vec<Field>)
        ensures
            record_view(fields@) == self.record(),
    {
        let mut fields: Vec<Field> = Vec::new();
        fields.push(
            Field {
                name: String::from_str(PRIVATE_KEY_FIELD),
                value: slice_to_vec(&self.private_key),
            },
        );
        fields.push(
            Field {
                name: String::from_str(PUBLIC_KEY_FIELD),
                value: slice_to_vec(&self.public_key),
            },
        );
        assert(record_view(fields@) =~= self.record());
        fields
    }

    /// The keypair that `fields` store: the stored private key with the public
    /// key derived from it anew. The stored public key is not trusted, so it is
    /// not used.
    pub fn from_record(fields: &Vec<Field>) -> (restored: Result<Keypair, KeypairError>)
        ensures
            match restored {
                Ok(keypair) => stored_private_key(record_view(fields@)) == Some(
                    keypair.private_key@,
                ) && keypair.is_derived(),
                Err(error) => error == KeypairError::Deserialization && stored_private_key(
                    record_view(fields@),
                ) is None,
            },
    {
        if fields.len() != 2 {
            return Err(KeypairError::Deserialization);
        }
        let private_at = match find_field(fields, PRIVATE_KEY_FIELD) {
            Some(at) => at,
            None => { return Err(KeypairError::Deserialization); },
        };
        let public_at = match find_field(fields, PUBLIC_KEY_FIELD) {
            Some(at) => at,
            None => { return Err(KeypairError::Deserialization); },
        };
        if fields[public_at].value.len() != 32 {
            return Err(KeypairError::Deserialization);
        }
        match key_from_bytes(fields[private_at].value.as_slice()) {
            Some(private_key) => Ok(Keypair::from_private_key(private_key)),
            None => Err(KeypairError::Deserialization),
        }
    }

    /// The record of a keypair stores that keypair's private key, so
    /// restoring from it succeeds and, for a derived keypair, gives the
    /// keypair back.
    pub proof fn law_record_round_trip(self)
        ensures
            stored_private_key(self.record()) == Some(self.private_key@),
    {
        lemma_field_names_differ();
        let record = self.record();
        assert(record.drop_first() =~= seq![(PUBLIC_KEY_FIELD@, self.public_key@)]);
        assert(field_value(record, PRIVATE_KEY_FIELD@) == Some(self.private_key@));
        assert(field_value(record.drop_first(), PUBLIC_KEY_FIELD@) == Some(self.public_key@));
    }
}

/// The two field names are different names.
proof fn lemma_field_names_differ()
    ensures
        PRIVATE_KEY_FIELD@ != PUBLIC_KEY_FIELD@,
{
    reveal_strlit("private_key");
    reveal_strlit("public_key");
    assert(PRIVATE_KEY_FIELD@.len() == 11);
    assert(PUBLIC_KEY_FIELD@.len() == 10);
}

/// What a record's public key field holds has no part in what is restored
/// from it: putting any other 32 bytes into that field leaves the stored
/// private key as it was.
pub proof fn law_stored_public_key_is_ignored(record: Record, at: int, other: Seq<u8>)
    requires
        0 <= at < record.len(),
        record[at].0 == PUBLIC_KEY_FIELD@,
        record[at].1.len() == 32,
        other.len() == 32,
    ensures
        stored_private_key(record.update(at, (PUBLIC_KEY_FIELD@, other))) == stored_private_key(
            record,
        ),
{
    lemma_field_names_differ();
    let changed = record.update(at, (PUBLIC_KEY_FIELD@, other));
    if record.len() == 2 {
        reveal_with_fuel(field_value, 3);
        assert(record.drop_first()[0] == record[1]);
        assert(changed.drop_first()[0] == changed[1]);
        assert(changed[at].1.len() == 32);
    }
}

} // verus!
