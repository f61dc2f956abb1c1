//! The runtime side of the generated code: the key-type contracts, generic
//! lookup over sequences of key-bearing values, and the reference semantics
//! of generated key values, with the equality and upgrade laws the
//! generated code obeys.

use vstd::prelude::*;
use crate::strutil::str_eq;

verus! {

broadcast use vstd::seq_lib::group_seq_properties;

/// What a key observably is: the variant tag it names, and, for the default
/// variant only, the runtime string it carries. Everything the generated
/// equality relations compare is here; all other payload is erased.
pub struct KeyModel {
    pub tag: int,
    pub carrier: Option<Seq<char>>,
}

/// Marks a type as a generated key type.
pub trait KeyEnum {

}

/// A type whose values can hand out a key: a payload-free mirror of their
/// variant, except that the default variant's key retains its string.
///
/// The generated code also compares a value directly against its key; the
/// `key_eq` operation stands for that relation, which the generated lookup
/// helpers need.
pub trait HasKeyEnum: Sized {
    type KeyEnum: KeyEnum;

    /// The key this value would hand out, mathematically.
    spec fn key_model(&self) -> KeyModel;

    /// What a value of the key type observably is.
    spec fn key_value_model(k: &Self::KeyEnum) -> KeyModel;

    /// Produces an owned key: for the default variant this allocates a
    /// fresh copy of the carried string.
    fn get_key(&self) -> (k: Self::KeyEnum)
        ensures
            Self::key_value_model(&k) == self.key_model(),
    ;

    /// Produces the borrowed-view key. On a key type that does not use
    /// copy-on-write storage for its default this is not borrowed data.
    fn get_key_borrowed(&self) -> (k: Self::KeyEnum)
        ensures
            Self::key_value_model(&k) == self.key_model(),
    ;

    /// Compares this value against a key: true exactly when the key is this
    /// value's own key.
    fn key_eq(&self, key: &Self::KeyEnum) -> (b: bool)
        ensures
            b == (self.key_model() == Self::key_value_model(key)),
    ;
}

impl<'t, T: KeyEnum> KeyEnum for &'t T {

}

impl<'t, T: HasKeyEnum> HasKeyEnum for &'t T {
    type KeyEnum = T::KeyEnum;

    open spec fn key_model(&self) -> KeyModel {
        (**self).key_model()
    }

    open spec fn key_value_model(k: &T::KeyEnum) -> KeyModel {
        T::key_value_model(k)
    }

    fn get_key(&self) -> (k: T::KeyEnum)
        ensures
            T::key_value_model(&k) == (**self).key_model(),
    {
        (**self).get_key()
    }

    fn get_key_borrowed(&self) -> (k: T::KeyEnum)
        ensures
            T::key_value_model(&k) == (**self).key_model(),
    {
        (**self).get_key_borrowed()
    }

    fn key_eq(&self, key: &T::KeyEnum) -> (b: bool)
        ensures
            b == ((**self).key_model() == T::key_value_model(key)),
    {
        (**self).key_eq(key)
    }
}

/// Some element of `items` carries the key `km`.
pub open spec fn spec_has_match<E: HasKeyEnum>(items: Seq<E>, km: KeyModel) -> bool {
    exists|i: int| 0 <= i < items.len() && (#[trigger] items[i]).key_model() == km
}

/// Lookup over a collection of key-bearing values: existence test,
/// first-match lookup, and all-matches collection in original order.
pub trait LookupByKey {
    type Item: HasKeyEnum;

    /// The elements looked through, in order.
    spec fn items(&self) -> Seq<Self::Item>;

    /// Whether some element carries the key.
    fn has_key(&self, key: &<Self::Item as HasKeyEnum>::KeyEnum) -> (b: bool)
        ensures
            b == spec_has_match(self.items(), Self::Item::key_value_model(key)),
    ;

    /// The first element that carries the key, if any.
    fn get_by_key<'a>(&'a self, key: &<Self::Item as HasKeyEnum>::KeyEnum) -> (r: Option<
        &'a Self::Item,
    >)
        ensures
            ({
                let km = Self::Item::key_value_model(key);
                match r {
                    Some(e) => exists|i: int|
                        0 <= i < self.items().len() && #[trigger] self.items()[i] == *e && self.items()[i].key_model()
                            == km && (forall|j: int|
                            0 <= j < i ==> (#[trigger] self.items()[j]).key_model() != km),
                    None => !spec_has_match(self.items(), km),
                }
            }),
    ;

    /// Every element that carries the key, in original order.
    fn get_all_by_key<'a>(&'a self, key: &<Self::Item as HasKeyEnum>::KeyEnum) -> (r: Vec<
        &'a Self::Item,
    >)
        ensures
            ({
                let km = Self::Item::key_value_model(key);
                r@.map_values(|e: &Self::Item| *e) == self.items().filter(
                    |e: Self::Item| e.key_model() == km,
                )
            }),
    ;
}

impl<E: HasKeyEnum> LookupByKey for Vec<E> {
    type Item = E;

    open spec fn items(&self) -> Seq<E> {
        self@
    }

    fn has_key(&self, key: &E::KeyEnum) -> (b: bool)
        ensures
            b == spec_has_match(self@, E::key_value_model(key)),
    {
        let ghost km = E::key_value_model(key);
        let mut i: usize = 0;
        while i < self.len()
            invariant
                i <= self.len(),
                forall|j: int| 0 <= j < i ==> (#[trigger] self@[j]).key_model() != km,
                km == E::key_value_model(key),
            decreases self.len() - i,
        {
            if self[i].key_eq(key) {
                proof {
                    assert(self@[i as int].key_model() == km);
                }
                return true;
            }
            i = i + 1;
        }
        false
    }

    fn get_by_key<'a>(&'a self, key: &E::KeyEnum) -> (r: Option<&'a E>)
        ensures
            ({
                let km = E::key_value_model(key);
                match r {
                    Some(e) => exists|i: int|
                        0 <= i < self@.len() && #[trigger] self@[i] == *e && self@[i].key_model()
                            == km && (forall|j: int|
                            0 <= j < i ==> (#[trigger] self@[j]).key_model() != km),
                    None => !spec_has_match(self@, km),
                }
            }),
    {
        let ghost km = E::key_value_model(key);
        let mut i: usize = 0;
        while i < self.len()
            invariant
                i <= self.len(),
                forall|j: int| 0 <= j < i ==> (#[trigger] self@[j]).key_model() != km,
                km == E::key_value_model(key),
            decreases self.len() - i,
        {
            if self[i].key_eq(key) {
                let e = &self[i];
                proof {
                    let wi = i as int;
                    let its = LookupByKey::items(self);
                    assert(its == self@);
                    assert(0 <= wi < its.len() && #[trigger] its[wi] == *e && its[wi].key_model()
                        == km && (forall|j: int|
                        0 <= j < wi ==> (#[trigger] its[j]).key_model() != km));
                }
                return Some(e);
            }
            i = i + 1;
        }
        None
    }

    fn get_all_by_key<'a>(&'a self, key: &E::KeyEnum) -> (r: Vec<&'a E>)
        ensures
            ({
                let km = E::key_value_model(key);
                r@.map_values(|e: &E| *e) == self@.filter(|e: E| e.key_model() == km)
            }),
    {
        let ghost km = E::key_value_model(key);
        let ghost pred = |e: E| e.key_model() == km;
        let mut r: Vec<&E> = Vec::new();
        let mut i: usize = 0;
        proof {
            assert(r@.map_values(|e: &E| *e) =~= self@.take(0).filter(pred));
            assert(self@.take(0).filter(pred) =~= Seq::<E>::empty()) by {
                reveal(Seq::filter);
            }
        }
        while i < self.len()
            invariant
                i <= self.len(),
                km == E::key_value_model(key),
                pred == |e: E| e.key_model() == km,
                r@.map_values(|e: &E| *e) == self@.take(i as int).filter(pred),
            decreases self.len() - i,
        {
            let ghost r0 = r@;
            let hit = self[i].key_eq(key);
            if hit {
                r.push(&self[i]);
            }
            proof {
                let prefix = self@.take(i as int);
                let prefix1 = self@.take(i + 1 as int);
                assert(prefix1.drop_last() =~= prefix);
                assert(prefix1.last() == self@[i as int]);
                reveal(Seq::filter);
                assert(prefix1.filter(pred) == if pred(self@[i as int]) {
                    prefix.filter(pred).push(self@[i as int])
                } else {
                    prefix.filter(pred)
                });
                if hit {
                    assert(r@ =~= r0.push(&self[i as int]));
                    assert(r@.map_values(|e: &E| *e) =~= r0.map_values(|e: &E| *e).push(
                        self@[i as int],
                    ));
                }
            }
            i = i + 1;
        }
        proof {
            assert(self@.take(self.len() as int) =~= self@);
        }
        r
    }
}

/// The storage of a default variant's string inside a key value: a borrowed
/// view or an owned copy. Equality between keys never depends on which form
/// holds the text.
#[derive(Debug)]
pub struct CowStr {
    pub owned: bool,
    pub text: String,
}

/// A value of a generated key type, in its observable shape: the variant
/// tag, and the carried string for the default variant. The generated key
/// enums all behave as this type does; the equality and upgrade laws below
/// are stated and proved over it.
#[derive(Debug)]
pub struct KeyValue {
    pub tag: usize,
    pub carrier: Option<CowStr>,
}

impl KeyEnum for KeyValue {

}

impl KeyValue {
    /// What this key observably is.
    pub open spec fn model(&self) -> KeyModel {
        KeyModel {
            tag: self.tag as int,
            carrier: match self.carrier {
                Some(c) => Some(c.text@),
                None => None,
            },
        }
    }

    /// The key holds no borrowed view.
    pub open spec fn fully_owned(&self) -> bool {
        match self.carrier {
            Some(c) => c.owned,
            None => true,
        }
    }

    /// Upgrades a borrowed key to an owned one. The observable key is
    /// unchanged, and upgrading an already-owned key returns it as it was.
    pub fn to_owned(&self) -> (r: KeyValue)
        ensures
            r.model() == self.model(),
            r.fully_owned(),
            self.fully_owned() ==> r == *self,
    {
        match &self.carrier {
            Some(c) => KeyValue {
                tag: self.tag,
                carrier: Some(CowStr { owned: true, text: c.text.clone() }),
            },
            None => KeyValue { tag: self.tag, carrier: None },
        }
    }
}

/// A value of an annotated variant type, in its observable shape: the
/// variant tag, the carried string where the variant is the default one,
/// and the rest of the payload, which the key intentionally ignores.
#[derive(Debug)]
pub struct TaggedValue {
    pub tag: usize,
    pub carrier: Option<String>,
    pub payload: Vec<String>,
}

impl HasKeyEnum for TaggedValue {
    type KeyEnum = KeyValue;

    open spec fn key_model(&self) -> KeyModel {
        KeyModel {
            tag: self.tag as int,
            carrier: match self.carrier {
                Some(s) => Some(s@),
                None => None,
            },
        }
    }

    open spec fn key_value_model(k: &KeyValue) -> KeyModel {
        k.model()
    }

    fn get_key(&self) -> (k: KeyValue)
        ensures
            k.model() == self.key_model(),
    {
        match &self.carrier {
            Some(s) => KeyValue {
                tag: self.tag,
                carrier: Some(CowStr { owned: true, text: s.clone() }),
            },
            None => KeyValue { tag: self.tag, carrier: None },
        }
    }

    fn get_key_borrowed(&self) -> (k: KeyValue)
        ensures
            k.model() == self.key_model(),
    {
        match &self.carrier {
            Some(s) => KeyValue {
                tag: self.tag,
                carrier: Some(CowStr { owned: false, text: s.clone() }),
            },
            None => KeyValue { tag: self.tag, carrier: None },
        }
    }

    fn key_eq(&self, key: &KeyValue) -> (b: bool)
        ensures
            b == (self.key_model() == key.model()),
    {
        if self.tag != key.tag {
            return false;
        }
        match (&self.carrier, &key.carrier) {
            (None, None) => true,
            (Some(a), Some(b)) => str_eq(a.as_str(), b.text.as_str()),
            _ => false,
        }
    }
}

/// Key extraction erases the payload of a non-default variant: any two
/// values carrying the same non-default tag have the same key, whatever
/// their payloads hold.
pub proof fn lemma_key_erases_payload(a: TaggedValue, b: TaggedValue)
    requires
        a.tag == b.tag,
        a.carrier is None,
        b.carrier is None,
    ensures
        a.key_model() == b.key_model(),
{
}

/// The default variant's key carries exactly the runtime string: against a
/// key of the same tag holding `y`, equality holds when `y` is the carried
/// string and fails for every other `y`.
pub proof fn lemma_default_key_carries_value(v: TaggedValue, k: KeyValue, y: Seq<char>)
    requires
        v.key_model().carrier is Some,
        k.tag == v.tag,
        k.model().carrier == Some(y),
    ensures
        (v.key_model() == k.model()) <==> (y == v.key_model().carrier->0),
{
}

/// Upgrading a key twice equals upgrading it once: the first upgrade leaves
/// a fully owned key, and upgrading an owned key returns it unchanged. The
/// pair returned is (once, twice), with the observable key preserved
/// throughout.
pub fn upgrade_twice(k: &KeyValue) -> (r: (KeyValue, KeyValue))
    ensures
        r.1 == r.0,
        r.0.model() == k.model(),
        r.0.fully_owned(),
{
    let once = k.to_owned();
    let twice = once.to_owned();
    (once, twice)
}

} // verus!
