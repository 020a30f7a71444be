//! Public identity information of the two parties.
use crate::json::{array, contents, json_of, no_members, null, object, text, Json};
use crate::text::{copy_opt_text, opt_text};
use serde_json::Value;
use vstd::prelude::*;

verus! {

/// Public identity information exposed to the frontend.
#[derive(Debug)]
pub struct IdentityInfo {
    pub alias: String,
    pub did: String,
    pub mediator_did: Option<String>,
    pub key_types: Vec<String>,
}

/// What an identity holds.
pub struct IdentityInfoView {
    pub alias: Seq<char>,
    pub did: Seq<char>,
    pub mediator_did: Option<Seq<char>>,
    pub key_types: Seq<Seq<char>>,
}

/// The views of a list of texts.
pub open spec fn texts(list: Seq<String>) -> Seq<Seq<char>> {
    list.map_values(|s: String| s@)
}

/// The key types that each profile carries: two for verification, two for
/// encryption.
pub open spec fn profile_key_types() -> Seq<Seq<char>> {
    seq!["P-256"@, "Ed25519"@, "X25519"@, "secp256k1"@]
}

impl View for IdentityInfo {
    type V = IdentityInfoView;

    open spec fn view(&self) -> IdentityInfoView {
        IdentityInfoView {
            alias: self.alias@,
            did: self.did@,
            mediator_did: opt_text(self.mediator_did),
            key_types: texts(self.key_types@),
        }
    }
}

/// A copy of a list of texts.
fn copy_texts(list: &Vec<String>) -> (copy: Vec<String>)
    ensures
        texts(copy@) == texts(list@),
{
    let mut copy: Vec<String> = Vec::new();
    let mut i: usize = 0;
    while i < list.len()
        invariant
            i <= list.len(),
            copy.len() == i,
            forall|k: int| 0 <= k < i ==> copy[k]@ == list[k]@,
        decreases list.len() - i,
    {
        copy.push(list[i].clone());
        i += 1;
    }
    assert(texts(copy@) =~= texts(list@));
    copy
}

impl Clone for IdentityInfo {
    fn clone(&self) -> (copy: Self)
        ensures
            copy@ == self@,
    {
        IdentityInfo {
            alias: self.alias.clone(),
            did: self.did.clone(),
            mediator_did: copy_opt_text(&self.mediator_did),
            key_types: copy_texts(&self.key_types),
        }
    }
}

impl IdentityInfo {
    /// Build an `IdentityInfo` from the alias and the identifiers of a
    /// profile.
    pub fn from_profile(alias: &str, did: &str, mediator_did: Option<&str>) -> (info: Self)
        ensures
            info@.alias == alias@,
            info@.did == did@,
            info@.mediator_did == match mediator_did {
                Some(m) => Some(m@),
                None => None,
            },
            info@.key_types == profile_key_types(),
    {
        let mediator = match mediator_did {
            Some(m) => Some(m.to_owned()),
            None => None,
        };
        let mut key_types: Vec<String> = Vec::new();
        key_types.push("P-256".to_owned());
        key_types.push("Ed25519".to_owned());
        key_types.push("X25519".to_owned());
        key_types.push("secp256k1".to_owned());
        assert(texts(key_types@) =~= profile_key_types());
        IdentityInfo { alias: alias.to_owned(), did: did.to_owned(), mediator_did: mediator, key_types }
    }
}

/// A list of texts as JSON texts.
pub open spec fn json_texts(list: Seq<Seq<char>>) -> Seq<Json> {
    list.map_values(|s: Seq<char>| Json::Text(s))
}

/// An identity in the wire format: an object with one member for each
/// field. A mediator that is absent is null.
pub open spec fn identity_wire_form(info: IdentityInfoView) -> Json {
    Json::Object(
        Map::<Seq<char>, Json>::empty().insert("alias"@, Json::Text(info.alias)).insert(
            "did"@,
            Json::Text(info.did),
        ).insert(
            "mediator_did"@,
            match info.mediator_did {
                Some(m) => Json::Text(m),
                None => Json::Null,
            },
        ).insert("key_types"@, Json::Array(json_texts(info.key_types))),
    )
}

impl IdentityInfo {
    /// The identity as a JSON document in the wire format.
    pub fn to_json(&self) -> (doc: Value)
        ensures
            json_of(doc) == identity_wire_form(self@),
    {
        let mut keys: Vec<Value> = Vec::new();
        let mut i: usize = 0;
        while i < self.key_types.len()
            invariant
                i <= self.key_types.len(),
                keys.len() == i,
                forall|k: int| 0 <= k < i ==> json_of(keys[k]) == Json::Text(self.key_types[k]@),
            decreases self.key_types.len() - i,
        {
            keys.push(text(self.key_types[i].as_str()));
            i += 1;
        }
        assert(contents(keys@) =~= json_texts(texts(self.key_types@)));
        let mediator = match &self.mediator_did {
            Some(m) => text(m.as_str()),
            None => null(),
        };
        let mut members = no_members();
        members.insert("alias".to_owned(), text(self.alias.as_str()));
        members.insert("did".to_owned(), text(self.did.as_str()));
        members.insert("mediator_did".to_owned(), mediator);
        members.insert("key_types".to_owned(), array(keys));
        object(members)
    }
}

} // verus!
