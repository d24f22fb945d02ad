//! How secrets are filed in the desktop's secret service: every item carries
//! the application, the key and the profile as attributes.

use vstd::prelude::*;
use crate::text::{owned, str_eq};

verus! {

/// The label of a stored secret.
pub fn secret_label(key: &str, profile: &str) -> (r: String)
    ensures
        r@ == "walz - "@ + key@ + " ("@ + profile@ + ")"@,
{
    let mut l = owned("walz - ");
    l.append(key);
    l.append(" (");
    l.append(profile);
    l.append(")");
    l
}

/// The attributes a secret is stored and looked up under.
pub fn secret_attributes(key: &str, profile: &str) -> (r: Vec<(String, String)>)
    ensures
        r.deep_view() == seq![("application"@, "walz"@), ("key"@, key@), ("profile"@, profile@)],
{
    let mut a: Vec<(String, String)> = Vec::new();
    a.push((owned("application"), owned("walz")));
    a.push((owned("key"), owned(key)));
    a.push((owned("profile"), owned(profile)));
    assert(a.deep_view() =~= seq![("application"@, "walz"@), ("key"@, key@), ("profile"@, profile@)]);
    a
}

/// The attributes that select every secret of a profile.
pub fn profile_attributes(profile: &str) -> (r: Vec<(String, String)>)
    ensures
        r.deep_view() == seq![("application"@, "walz"@), ("profile"@, profile@)],
{
    let mut a: Vec<(String, String)> = Vec::new();
    a.push((owned("application"), owned("walz")));
    a.push((owned("profile"), owned(profile)));
    assert(a.deep_view() =~= seq![("application"@, "walz"@), ("profile"@, profile@)]);
    a
}

/// The value of the attribute named `key`, if a secret has one.
pub open spec fn key_attribute_spec(attrs: Seq<(Seq<char>, Seq<char>)>) -> Option<Seq<char>>
    decreases attrs.len(),
{
    if attrs.len() == 0 {
        None
    } else if attrs[0].0 == "key"@ {
        Some(attrs[0].1)
    } else {
        key_attribute_spec(attrs.drop_first())
    }
}

/// The keys of the listed secrets: for each secret, in order, the value of its
/// `key` attribute; secrets without one are skipped.
pub open spec fn listed_keys(items: Seq<Seq<(Seq<char>, Seq<char>)>>) -> Seq<Seq<char>>
    decreases items.len(),
{
    if items.len() == 0 {
        Seq::empty()
    } else {
        let r = listed_keys(items.drop_last());
        match key_attribute_spec(items.last()) {
            Some(k) => r.push(k),
            None => r,
        }
    }
}

fn key_attribute(attrs: &Vec<(String, String)>) -> (r: Option<String>)
    ensures
        match r { Some(k) => Some(k@), None => None::<Seq<char>> } == key_attribute_spec(attrs.deep_view()),
{
    let mut i: usize = 0;
    assert(attrs.deep_view().skip(0) =~= attrs.deep_view());
    while i < attrs.len()
        invariant
            i <= attrs@.len(),
            key_attribute_spec(attrs.deep_view()) == key_attribute_spec(attrs.deep_view().skip(i as int)),
        decreases attrs@.len() - i,
    {
        let ghost rest = attrs.deep_view().skip(i as int);
        assert(rest[0] == attrs.deep_view()[i as int]);
        if str_eq(attrs[i].0.as_str(), "key") {
            return Some(attrs[i].1.clone());
        }
        assert(rest.drop_first() =~= attrs.deep_view().skip(i as int + 1));
        i = i + 1;
    }
    None
}

/// The keys of the secrets found for a profile, given each secret's attributes.
pub fn list_secrets(items: &Vec<Vec<(String, String)>>) -> (r: Vec<String>)
    ensures
        r.deep_view() == listed_keys(items.deep_view()),
{
    let mut keys: Vec<String> = Vec::new();
    let mut i: usize = 0;
    while i < items.len()
        invariant
            i <= items@.len(),
            keys.deep_view() == listed_keys(items.deep_view().take(i as int)),
        decreases items@.len() - i,
    {
        let found = key_attribute(&items[i]);
        proof {
            let t = items.deep_view().take(i as int + 1);
            assert(t.drop_last() =~= items.deep_view().take(i as int));
            assert(t.last() == items[i as int].deep_view());
        }
        match found {
            Some(k) => {
                keys.push(k);
            },
            None => {},
        }
        i = i + 1;
        assert(keys.deep_view() =~= listed_keys(items.deep_view().take(i as int)));
    }
    assert(items.deep_view().take(items@.len() as int) =~= items.deep_view());
    keys
}

} // verus!
