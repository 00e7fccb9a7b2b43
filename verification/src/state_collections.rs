//! The containers of the state kernel: a collection of items keyed by their
//! identifier, a value that may be absent, and the preferences.

use vstd::prelude::*;
use vstd::string::*;
use crate::errors::{AppError, AppResult, ErrorCategory};
use crate::text::{concat3, str_eq, string_texts};

verus! {

/// A structured value whose meaning the state kernel does not look into.
#[derive(Debug)]
pub enum Payload {
    /// No value.
    Null,
    /// A truth value.
    Flag(bool),
    /// A whole number.
    Whole(i64),
    /// A text.
    Text(String),
    /// Any other value, as JSON text.
    Json(String),
}

/// What a `Payload` holds.
pub enum PayloadView {
    Null,
    Flag(bool),
    Whole(i64),
    Text(Seq<char>),
    Json(Seq<char>),
}

impl View for Payload {
    type V = PayloadView;

    open spec fn view(&self) -> PayloadView {
        match self {
            Payload::Null => PayloadView::Null,
            Payload::Flag(b) => PayloadView::Flag(*b),
            Payload::Whole(n) => PayloadView::Whole(*n),
            Payload::Text(s) => PayloadView::Text(s@),
            Payload::Json(s) => PayloadView::Json(s@),
        }
    }
}

impl Clone for Payload {
    fn clone(&self) -> (r: Self)
        ensures
            r@ == self@,
    {
        match self {
            Payload::Null => Payload::Null,
            Payload::Flag(b) => Payload::Flag(*b),
            Payload::Whole(n) => Payload::Whole(*n),
            Payload::Text(s) => Payload::Text(s.clone()),
            Payload::Json(s) => Payload::Json(s.clone()),
        }
    }
}

/// Items under keys, in the order the keys were first used. No key occurs
/// twice.
#[derive(Debug)]
pub struct Entries<T> {
    keys: Vec<String>,
    items: Vec<T>,
}

/// The position of `key` among `keys`, or their number where it is not
/// among them.
pub open spec fn key_position(keys: Seq<Seq<char>>, key: Seq<char>) -> int
    decreases keys.len(),
{
    if keys.len() == 0 {
        0
    } else if keys[0] == key {
        0
    } else {
        1 + key_position(keys.drop_first(), key)
    }
}

/// `key_position` gives a position or the length; the key stands there and
/// not before.
pub proof fn lemma_key_position(keys: Seq<Seq<char>>, key: Seq<char>)
    ensures
        0 <= key_position(keys, key) <= keys.len(),
        key_position(keys, key) < keys.len() ==> keys[key_position(keys, key)] == key,
        key_position(keys, key) == keys.len() <==> !keys.contains(key),
        forall|j: int| 0 <= j < key_position(keys, key) ==> keys[j] != key,
    decreases keys.len(),
{
    if keys.len() != 0 && keys[0] != key {
        lemma_key_position(keys.drop_first(), key);
        let rest = keys.drop_first();
        assert forall|j: int| 0 <= j < key_position(keys, key) implies keys[j] != key by {
            if j > 0 {
                assert(rest[j - 1] == keys[j]);
            }
        }
        if rest.contains(key) {
            let k = choose|k: int| 0 <= k < rest.len() && rest[k] == key;
            assert(keys[k + 1] == key);
        }
        if keys.contains(key) {
            let k = choose|k: int| 0 <= k < keys.len() && keys[k] == key;
            assert(rest[k - 1] == key);
        }
    } else if keys.len() != 0 {
        assert(keys[0] == key);
    }
}

/// The position of `key` is `p` where the key stands at `p` and not before;
/// it is the number of keys where the key is not among them.
pub proof fn lemma_key_position_is(keys: Seq<Seq<char>>, key: Seq<char>, p: int)
    requires
        0 <= p <= keys.len(),
        forall|j: int| 0 <= j < p ==> keys[j] != key,
        p < keys.len() ==> keys[p] == key,
    ensures
        key_position(keys, key) == p,
    decreases keys.len(),
{
    if keys.len() != 0 && keys[0] != key {
        assert forall|j: int| 0 <= j < p - 1 implies keys.drop_first()[j] != key by {
            assert(keys.drop_first()[j] == keys[j + 1]);
        }
        lemma_key_position_is(keys.drop_first(), key, p - 1);
    }
}

/// A new key behind all others leaves every other key where it is.
pub proof fn lemma_key_position_after_push(keys: Seq<Seq<char>>, key: Seq<char>, other: Seq<char>)
    requires
        other != key,
    ensures
        key_position(keys, other) < keys.len() ==> key_position(keys.push(key), other)
            == key_position(keys, other),
        key_position(keys, other) == keys.len() ==> key_position(keys.push(key), other)
            == keys.len() + 1,
{
    lemma_key_position(keys, other);
    let p = key_position(keys, other);
    let after = keys.push(key);
    if p < keys.len() {
        assert forall|j: int| 0 <= j < p implies after[j] != other by {
            assert(after[j] == keys[j]);
        }
        assert(after[p] == other);
        lemma_key_position_is(after, other, p);
    } else {
        assert forall|j: int| 0 <= j < after.len() implies after[j] != other by {
            if j < keys.len() {
                assert(after[j] == keys[j]);
            }
        }
        lemma_key_position_is(after, other, after.len() as int);
    }
}

/// The keys and items once `item` is put under `key`: in the place of the
/// item that was under the key, or behind all others where the key is new.
pub open spec fn put<T>(keys: Seq<Seq<char>>, items: Seq<T>, key: Seq<char>, item: T) -> (
    Seq<Seq<char>>,
    Seq<T>,
) {
    let i = key_position(keys, key);
    if i < keys.len() {
        (keys, items.update(i, item))
    } else {
        (keys.push(key), items.push(item))
    }
}

/// The keys and items once `key` is taken out.
pub open spec fn taken<T>(keys: Seq<Seq<char>>, items: Seq<T>, key: Seq<char>) -> (
    Seq<Seq<char>>,
    Seq<T>,
) {
    let i = key_position(keys, key);
    if i < keys.len() {
        (keys.remove(i), items.remove(i))
    } else {
        (keys, items)
    }
}

/// Putting an item under its key a second time changes nothing: adding an
/// item and then updating it with itself leaves what adding it alone leaves.
pub proof fn lemma_put_twice<T>(keys: Seq<Seq<char>>, items: Seq<T>, key: Seq<char>, item: T)
    requires
        keys.len() == items.len(),
    ensures
        ({
            let once = put(keys, items, key, item);
            put(once.0, once.1, key, item) == once
        }),
{
    lemma_key_position(keys, key);
    let once = put(keys, items, key, item);
    lemma_key_position(once.0, key);
    let i = key_position(keys, key);
    if i < keys.len() {
        assert(once.1.update(i, item) =~= once.1);
    } else {
        assert(once.0[keys.len() as int] == key);
        let j = key_position(once.0, key);
        if j < keys.len() {
            assert(keys[j] == once.0[j]);
        }
        assert(j == keys.len());
        assert(once.1.update(j, item) =~= once.1);
    }
}

impl<T> Entries<T> {
    /// The keys, in the order they were first used.
    pub closed spec fn keys(&self) -> Seq<Seq<char>> {
        string_texts(self.keys@)
    }

    /// The items, each at the position of its key.
    pub closed spec fn items(&self) -> Seq<T> {
        self.items@
    }

    /// There are as many items as keys, and no key occurs twice.
    pub open spec fn well_formed(&self) -> bool {
        &&& self.keys().len() == self.items().len()
        &&& self.keys().no_duplicates()
    }

    /// The item under `key`, where there is one.
    pub open spec fn at(&self, key: Seq<char>) -> Option<T> {
        if key_position(self.keys(), key) < self.keys().len() {
            Some(self.items()[key_position(self.keys(), key)])
        } else {
            None
        }
    }

    /// No entries.
    pub fn new() -> (e: Self)
        ensures
            e.well_formed(),
            e.keys() == Seq::<Seq<char>>::empty(),
            e.items() == Seq::<T>::empty(),
    {
        let e = Entries { keys: Vec::new(), items: Vec::new() };
        assert(e.keys() =~= Seq::empty());
        e
    }

    /// The number of entries.
    pub fn len(&self) -> (n: usize)
        ensures
            n == self.keys().len(),
    {
        self.keys.len()
    }

    fn position(&self, key: &str) -> (i: usize)
        ensures
            i == key_position(self.keys(), key@),
            i <= self.keys().len(),
    {
        let mut i: usize = 0;
        while i < self.keys.len()
            invariant
                i <= self.keys.len(),
                forall|k: int| 0 <= k < i ==> self.keys()[k] != key@,
            decreases self.keys.len() - i,
        {
            if str_eq(self.keys[i].as_str(), key) {
                proof {
                    lemma_key_position(self.keys(), key@);
                    assert(self.keys()[i as int] == key@);
                }
                return i;
            }
            i += 1;
        }
        proof {
            lemma_key_position(self.keys(), key@);
        }
        i
    }

    /// Decides whether there is an item under `key`.
    pub fn contains_key(&self, key: &str) -> (r: bool)
        ensures
            r == self.keys().contains(key@),
            r == self.at(key@) is Some,
    {
        let i = self.position(key);
        proof {
            lemma_key_position(self.keys(), key@);
        }
        i < self.keys.len()
    }

    /// The item under `key`.
    pub fn get(&self, key: &str) -> (r: Option<&T>)
        requires
            self.well_formed(),
        ensures
            match r {
                Some(item) => self.at(key@) == Some(*item),
                None => self.at(key@) is None,
            },
    {
        let i = self.position(key);
        if i < self.keys.len() {
            Some(&self.items[i])
        } else {
            None
        }
    }

    /// Puts `item` under `key`, in the place of the item that was there or
    /// behind all others.
    pub fn insert(&mut self, key: &str, item: T)
        requires
            old(self).well_formed(),
        ensures
            final(self).well_formed(),
            (final(self).keys(), final(self).items()) == put(
                old(self).keys(),
                old(self).items(),
                key@,
                item,
            ),
            final(self).at(key@) == Some(item),
    {
        let i = self.position(key);
        let ghost keys = self.keys();
        proof {
            lemma_key_position(keys, key@);
        }
        if i < self.keys.len() {
            self.items.set(i, item);
        } else {
            self.keys.push(String::from_str(key));
            self.items.push(item);
            proof {
                assert(self.keys() =~= keys.push(key@));
                assert forall|a: int, b: int|
                    0 <= a < self.keys().len() && 0 <= b < self.keys().len() && a
                        != b implies self.keys()[a] != self.keys()[b] by {
                    if a < keys.len() && b < keys.len() {
                        assert(keys[a] != keys[b]);
                    }
                }
            }
        }
        proof {
            lemma_key_position(self.keys(), key@);
            if i >= keys.len() {
                assert(self.keys()[keys.len() as int] == key@);
                let j = key_position(self.keys(), key@);
                if j < keys.len() {
                    assert(keys[j] == self.keys()[j]);
                }
            }
        }
    }

    /// Takes the item under `key` out.
    pub fn remove(&mut self, key: &str) -> (r: Option<T>)
        requires
            old(self).well_formed(),
        ensures
            final(self).well_formed(),
            r == old(self).at(key@),
            (final(self).keys(), final(self).items()) == taken(
                old(self).keys(),
                old(self).items(),
                key@,
            ),
            final(self).at(key@) is None,
    {
        let i = self.position(key);
        let ghost keys = self.keys();
        proof {
            lemma_key_position(keys, key@);
        }
        if i < self.keys.len() {
            let _ = self.keys.remove(i);
            let item = self.items.remove(i);
            proof {
                assert(self.keys() =~= keys.remove(i as int));
                assert forall|a: int, b: int|
                    0 <= a < self.keys().len() && 0 <= b < self.keys().len() && a
                        != b implies self.keys()[a] != self.keys()[b] by {
                    let a2 = if a < i {
                        a
                    } else {
                        a + 1
                    };
                    let b2 = if b < i {
                        b
                    } else {
                        b + 1
                    };
                    assert(keys[a2] != keys[b2]);
                }
                lemma_key_position(self.keys(), key@);
                if self.keys().contains(key@) {
                    let k = choose|k: int| 0 <= k < self.keys().len() && self.keys()[k] == key@;
                    let k2 = if k < i {
                        k
                    } else {
                        k + 1
                    };
                    assert(keys[k2] == key@);
                    assert(keys[k2] != keys[i as int]);
                }
            }
            Some(item)
        } else {
            None
        }
    }

    /// The position of the entry under `key`, where there is one.
    pub fn index_of(&self, key: &str) -> (r: Option<usize>)
        ensures
            match r {
                Some(i) => i == key_position(self.keys(), key@) && i < self.keys().len(),
                None => key_position(self.keys(), key@) == self.keys().len(),
            },
    {
        let i = self.position(key);
        if i < self.keys.len() {
            Some(i)
        } else {
            None
        }
    }

    /// Puts `item` under the new key `key` at the position `index`.
    pub(crate) fn insert_at(&mut self, index: usize, key: &str, item: T)
        requires
            old(self).well_formed(),
            index <= old(self).keys().len(),
            !old(self).keys().contains(key@),
        ensures
            final(self).well_formed(),
            final(self).keys() == old(self).keys().insert(index as int, key@),
            final(self).items() == old(self).items().insert(index as int, item),
            key_position(final(self).keys(), key@) == index,
            final(self).at(key@) == Some(item),
    {
        let ghost keys = self.keys();
        self.keys.insert(index, String::from_str(key));
        self.items.insert(index, item);
        proof {
            let now = self.keys();
            assert(now =~= keys.insert(index as int, key@));
            assert forall|a: int, b: int| 0 <= a < now.len() && 0 <= b < now.len() && a
                != b implies now[a] != now[b] by {
                let a2 = if a < index {
                    a
                } else {
                    a - 1
                };
                let b2 = if b < index {
                    b
                } else {
                    b - 1
                };
                if a != index && b != index {
                    assert(keys[a2] != keys[b2]);
                } else if a == index {
                    assert(now[b] == keys[b2]);
                } else {
                    assert(now[a] == keys[a2]);
                }
            }
            lemma_key_position(now, key@);
            assert(now[index as int] == key@);
            let j = key_position(now, key@);
            if j != index {
                assert(now[j] == now[index as int]);
            }
        }
    }

    /// The items, in the order of their keys.
    pub fn values(&self) -> (r: Vec<&T>)
        ensures
            r@.len() == self.items().len(),
            forall|i: int| 0 <= i < r@.len() ==> *r@[i] == self.items()[i],
    {
        let mut r: Vec<&T> = Vec::new();
        let mut i: usize = 0;
        while i < self.items.len()
            invariant
                i <= self.items.len(),
                r@.len() == i,
                forall|k: int| 0 <= k < i ==> *r@[k] == self.items()[k],
            decreases self.items.len() - i,
        {
            r.push(&self.items[i]);
            i += 1;
        }
        r
    }

    /// The keys, in the order they were first used.
    pub fn key_list(&self) -> (r: Vec<String>)
        ensures
            string_texts(r@) == self.keys(),
    {
        let mut r: Vec<String> = Vec::new();
        let mut i: usize = 0;
        while i < self.keys.len()
            invariant
                i <= self.keys.len(),
                string_texts(r@) == self.keys().take(i as int),
            decreases self.keys.len() - i,
        {
            let ghost old_r = r@;
            r.push(self.keys[i].clone());
            proof {
                assert(string_texts(r@) =~= string_texts(old_r).push(self.keys()[i as int]));
                assert(self.keys().take(i as int).push(self.keys()[i as int])
                    =~= self.keys().take(i + 1));
            }
            i += 1;
        }
        proof {
            assert(self.keys().take(i as int) =~= self.keys());
        }
        r
    }

    /// Takes every entry out.
    pub fn clear(&mut self)
        ensures
            final(self).well_formed(),
            final(self).keys() == Seq::<Seq<char>>::empty(),
            final(self).items() == Seq::<T>::empty(),
    {
        self.keys = Vec::new();
        self.items = Vec::new();
        assert(self.keys() =~= Seq::empty());
    }
}

/// What `not_found_error` says.
pub open spec fn not_found_text(item_name: Seq<char>, id: Seq<char>, collection_name: Seq<char>) -> Seq<
    char,
> {
    item_name + " '"@ + id + "' not found in "@ + collection_name
}

/// A collection of items of one kind, each under its identifier.
pub trait StateCollection<T> {
    /// The identifier of an item.
    spec fn id_of(item: &T) -> Seq<char>;

    /// The name of the collection, for messages.
    spec fn collection_text() -> Seq<char>;

    /// The name of one item, for messages.
    spec fn item_text() -> Seq<char>;

    /// The name of the collection, for messages.
    fn collection_name() -> (r: &'static str)
        ensures
            r@ == Self::collection_text(),
    ;

    /// The name of one item, for messages.
    fn item_name() -> (r: &'static str)
        ensures
            r@ == Self::item_text(),
    ;

    /// The identifier of `item`.
    fn get_id(item: &T) -> (id: String)
        ensures
            id@ == Self::id_of(item),
    ;

    /// The failure for an identifier under which there is no item.
    fn not_found_error(id: &str) -> (e: AppError)
        ensures
            e.is(
                ErrorCategory::Internal,
                "ITEM_NOT_FOUND"@,
                not_found_text(Self::item_text(), id@, Self::collection_text()),
                None,
            ),
    {
        let start = concat3(Self::item_name(), " '", id);
        let message = concat3(start.as_str(), "' not found in ", Self::collection_name());
        AppError::internal("ITEM_NOT_FOUND", message.as_str())
    }

    /// Puts `item` under its identifier: in the place of the item that had
    /// it, or behind all others.
    fn add_item(collection: &mut Entries<T>, item: T) -> (r: AppResult<()>)
        requires
            old(collection).well_formed(),
        ensures
            r is Ok,
            final(collection).well_formed(),
            (final(collection).keys(), final(collection).items()) == put(
                old(collection).keys(),
                old(collection).items(),
                Self::id_of(&item),
                item,
            ),
    {
        let id = Self::get_id(&item);
        collection.insert(id.as_str(), item);
        Ok(())
    }

    /// The item under `id`.
    fn get_item<'a>(collection: &'a Entries<T>, id: &str) -> (r: Option<&'a T>)
        requires
            collection.well_formed(),
        ensures
            match r {
                Some(item) => collection.at(id@) == Some(*item),
                None => collection.at(id@) is None,
            },
    {
        collection.get(id)
    }

    /// Puts `item` under its identifier, exactly as `add_item` does.
    fn update_item(collection: &mut Entries<T>, item: T) -> (r: AppResult<()>)
        requires
            old(collection).well_formed(),
        ensures
            r is Ok,
            final(collection).well_formed(),
            (final(collection).keys(), final(collection).items()) == put(
                old(collection).keys(),
                old(collection).items(),
                Self::id_of(&item),
                item,
            ),
    {
        let id = Self::get_id(&item);
        collection.insert(id.as_str(), item);
        Ok(())
    }

    /// Takes the item under `id` out; it is a failure if there is none.
    fn remove_item(collection: &mut Entries<T>, id: &str) -> (r: AppResult<()>)
        requires
            old(collection).well_formed(),
        ensures
            final(collection).well_formed(),
            (final(collection).keys(), final(collection).items()) == taken(
                old(collection).keys(),
                old(collection).items(),
                id@,
            ),
            match r {
                Ok(_) => old(collection).keys().contains(id@),
                Err(e) => !old(collection).keys().contains(id@) && e.is(
                    ErrorCategory::Internal,
                    "ITEM_NOT_FOUND"@,
                    not_found_text(Self::item_text(), id@, Self::collection_text()),
                    None,
                ),
            },
    {
        proof {
            lemma_key_position(collection.keys(), id@);
        }
        match collection.remove(id) {
            Some(_) => Ok(()),
            None => Err(Self::not_found_error(id)),
        }
    }

    /// The items, in the order their identifiers were first used.
    fn list_items<'a>(collection: &'a Entries<T>) -> (r: Vec<&'a T>)
        ensures
            r@.len() == collection.items().len(),
            forall|i: int| 0 <= i < r@.len() ==> *r@[i] == collection.items()[i],
    {
        collection.values()
    }

    /// Decides whether there is an item under `id`.
    fn item_exists(collection: &Entries<T>, id: &str) -> (r: bool)
        ensures
            r == collection.keys().contains(id@),
    {
        collection.contains_key(id)
    }

    /// The number of items.
    fn count(collection: &Entries<T>) -> (n: usize)
        ensures
            n == collection.keys().len(),
    {
        collection.len()
    }

    /// Takes every item out.
    fn clear(collection: &mut Entries<T>)
        ensures
            final(collection).well_formed(),
            final(collection).keys() == Seq::<Seq<char>>::empty(),
            final(collection).items() == Seq::<T>::empty(),
    {
        collection.clear();
    }
}

/// A value of which there is one or none.
pub trait OptionalStateValue<T> {
    /// The name of the value, for messages.
    fn value_name() -> &'static str;

    /// Puts `value` in the place of what was there.
    fn set_value(holder: &mut Option<T>, value: T) -> (r: AppResult<()>)
        ensures
            r is Ok,
            *final(holder) == Some(value),
    {
        *holder = Some(value);
        Ok(())
    }

    /// The value, where there is one.
    fn get_value<'a>(holder: &'a Option<T>) -> (r: Option<&'a T>)
        ensures
            match r {
                Some(v) => *holder == Some(*v),
                None => *holder is None,
            },
    {
        holder.as_ref()
    }

    /// Takes the value out.
    fn clear_value(holder: &mut Option<T>)
        ensures
            *final(holder) is None,
    {
        *holder = None;
    }

    /// Decides whether there is a value.
    fn has_value(holder: &Option<T>) -> (r: bool)
        ensures
            r == *holder is Some,
    {
        holder.is_some()
    }
}

/// The preferences: values under names.
pub trait PreferenceManager {
    /// The value under `key`.
    fn get_preference<'a>(preferences: &'a Entries<Payload>, key: &str) -> (r: Option<&'a Payload>)
        requires
            preferences.well_formed(),
        ensures
            match r {
                Some(v) => preferences.at(key@) == Some(*v),
                None => preferences.at(key@) is None,
            },
    {
        preferences.get(key)
    }

    /// Puts `value` under `key`.
    fn set_preference(preferences: &mut Entries<Payload>, key: &str, value: Payload) -> (r: AppResult<
        (),
    >)
        requires
            old(preferences).well_formed(),
        ensures
            r is Ok,
            final(preferences).well_formed(),
            (final(preferences).keys(), final(preferences).items()) == put(
                old(preferences).keys(),
                old(preferences).items(),
                key@,
                value,
            ),
    {
        preferences.insert(key, value);
        Ok(())
    }

    /// Every name with its value, in the order the names were first used.
    fn get_all_preferences(preferences: &Entries<Payload>) -> (r: (Vec<String>, Vec<&Payload>))
        ensures
            string_texts(r.0@) == preferences.keys(),
            r.1@.len() == preferences.items().len(),
            forall|i: int| 0 <= i < r.1@.len() ==> *r.1@[i] == preferences.items()[i],
    {
        (preferences.key_list(), preferences.values())
    }

    /// Takes the value under `key` out and says whether there was one.
    fn remove_preference(preferences: &mut Entries<Payload>, key: &str) -> (r: AppResult<bool>)
        requires
            old(preferences).well_formed(),
        ensures
            final(preferences).well_formed(),
            r == Ok::<bool, AppError>(old(preferences).keys().contains(key@)),
            (final(preferences).keys(), final(preferences).items()) == taken(
                old(preferences).keys(),
                old(preferences).items(),
                key@,
            ),
    {
        proof {
            lemma_key_position(preferences.keys(), key@);
        }
        let existed = preferences.remove(key).is_some();
        Ok(existed)
    }

    /// Takes every value out.
    fn clear_preferences(preferences: &mut Entries<Payload>)
        ensures
            final(preferences).well_formed(),
            final(preferences).keys() == Seq::<Seq<char>>::empty(),
    {
        preferences.clear();
    }
}

} // verus!
