//! The configuration table: one opaque string value per (component, id) key.
//! Writing a key is an upsert, so a key never has more than one row.

use vstd::prelude::*;

verus! {

/// The component name under which the built-in services keep their entries.
pub const SYSTEM_COMPONENT: &'static str = "system";

/// Entry id of the token authority's settings.
pub const JWT_CONFIG_ID: i32 = 1;

/// Entry id of the theme engine's settings.
pub const THEME_SERVICE_CONFIG_ID: i32 = 2;

/// Entry id of the site settings.
pub const SITE_CONFIG_ID: i32 = 3;

/// One stored row: a surrogate id, the key and the serialized value.
pub struct ConfigRow {
    pub id: i32,
    pub component: String,
    pub config_id: i32,
    pub value: String,
}

/// A failure of the configuration store.
pub enum ConfigError {
    /// The stored value does not have the shape that was asked for.
    DecodeError(String),
    /// The store could not complete the operation.
    StoreError(String),
}

/// The rows of the configuration table and the next surrogate id to assign.
pub struct ConfigTable {
    pub rows: Vec<ConfigRow>,
    pub next_id: i32,
}

/// Row `r` holds the key `(component, config_id)`.
pub open spec fn row_has_key(r: ConfigRow, component: Seq<char>, config_id: i32) -> bool {
    r.component@ == component && r.config_id == config_id
}

/// `r` is what `decode` gives on `s`: the decoded value, or a decode error
/// with the decoder's message.
pub open spec fn decode_gave<T, F: Fn(&str) -> Result<T, String>>(
    decode: F,
    s: &str,
    r: Result<Option<T>, ConfigError>,
) -> bool {
    match r {
        Ok(Some(v)) => decode.ensures((s,), Ok(v)),
        Err(ConfigError::DecodeError(m)) => decode.ensures((s,), Err(m)),
        _ => false,
    }
}

/// `r` is what decoding the text `stored` with `decode` gives.
pub open spec fn decoded_by<T, F: Fn(&str) -> Result<T, String>>(
    decode: F,
    stored: Seq<char>,
    r: Result<Option<T>, ConfigError>,
) -> bool {
    exists|s: &str| s@ == stored && #[trigger] decode_gave(decode, s, r)
}

/// Two rows hold the same key.
pub open spec fn same_key(a: ConfigRow, b: ConfigRow) -> bool {
    a.component@ == b.component@ && a.config_id == b.config_id
}

impl ConfigTable {
    /// At most one row per key, distinct surrogate ids, all below `next_id`.
    pub open spec fn wf(&self) -> bool {
        &&& self.next_id >= 1
        &&& forall|i: int, j: int|
            0 <= i < j < self.rows.len() ==> !#[trigger] same_key(self.rows[i], self.rows[j])
        &&& forall|i: int| 0 <= i < self.rows.len() ==> #[trigger] self.rows[i].id < self.next_id
        &&& forall|i: int, j: int|
            0 <= i < j < self.rows.len() ==> #[trigger] self.rows[i].id != #[trigger] self.rows[j].id
    }

    /// Some row holds the key.
    pub open spec fn has_key(&self, component: Seq<char>, config_id: i32) -> bool {
        exists|i: int| 0 <= i < self.rows.len() && row_has_key(#[trigger] self.rows[i], component, config_id)
    }

    /// The value stored under a key, if any.
    pub open spec fn lookup(&self, component: Seq<char>, config_id: i32) -> Option<Seq<char>> {
        if self.has_key(component, config_id) {
            let i = choose|i: int|
                0 <= i < self.rows.len() && row_has_key(#[trigger] self.rows[i], component, config_id);
            Some(self.rows[i].value@)
        } else {
            None
        }
    }

    /// Exactly one row holds the key.
    pub open spec fn single_row(&self, component: Seq<char>, config_id: i32) -> bool {
        exists|i: int|
            0 <= i < self.rows.len() && row_has_key(#[trigger] self.rows[i], component, config_id) && (
            forall|j: int|
                0 <= j < self.rows.len() && row_has_key(#[trigger] self.rows[j], component, config_id)
                    ==> j == i)
    }

    /// The table as a map from key to stored value.
    pub open spec fn view(&self) -> Map<(Seq<char>, i32), Seq<char>> {
        Map::new(|k: (Seq<char>, i32)| self.has_key(k.0, k.1), |k: (Seq<char>, i32)| self.lookup(k.0, k.1)->0)
    }

    /// An empty table.
    pub fn new() -> (r: ConfigTable)
        ensures
            r.wf(),
            r.rows@.len() == 0,
            r.next_id == 1,
            r@ == Map::<(Seq<char>, i32), Seq<char>>::empty(),
    {
        let r = ConfigTable { rows: Vec::new(), next_id: 1 };
        assert(r@ =~= Map::<(Seq<char>, i32), Seq<char>>::empty());
        r
    }

    /// The index of the row holding the key, if any.
    fn find(&self, component: &String, config_id: i32) -> (r: Option<usize>)
        requires
            self.wf(),
        ensures
            r is None <==> !self.has_key(component@, config_id),
            r matches Some(i) ==> i < self.rows.len() && row_has_key(self.rows[i as int], component@, config_id)
                && self.lookup(component@, config_id) == Some(self.rows[i as int].value@),
    {
        let mut i: usize = 0;
        while i < self.rows.len()
            invariant
                self.wf(),
                i <= self.rows.len(),
                forall|j: int| 0 <= j < i ==> !row_has_key(#[trigger] self.rows[j], component@, config_id),
            decreases self.rows.len() - i,
        {
            let row = &self.rows[i];
            if row.config_id == config_id && row.component == *component {
                proof {
                    let k = choose|k: int|
                        0 <= k < self.rows.len() && row_has_key(#[trigger] self.rows[k], component@, config_id);
                    if k != i {
                        if k < i {
                            assert(row_has_key(self.rows[k], component@, config_id));
                        } else {
                            assert(!same_key(self.rows[i as int], self.rows[k]));
                        }
                    }
                }
                return Some(i);
            }
            i = i + 1;
        }
        None
    }
}

/// `after` is `before` with the row holding the key given `value` in place:
/// same rows in the same order, that row keeping its surrogate id and key,
/// every other row unchanged.
pub open spec fn updated_in_place(
    before: ConfigTable,
    after: ConfigTable,
    component: Seq<char>,
    config_id: i32,
    value: Seq<char>,
) -> bool {
    &&& after.rows.len() == before.rows.len()
    &&& after.next_id == before.next_id
    &&& forall|j: int|
        0 <= j < before.rows.len() ==> if row_has_key(#[trigger] before.rows[j], component, config_id) {
            &&& after.rows[j].id == before.rows[j].id
            &&& row_has_key(after.rows[j], component, config_id)
            &&& after.rows[j].value@ == value
        } else {
            after.rows[j] == before.rows[j]
        }
}

/// `after` is `before` with one row added at the end: the key, `value`, and
/// the next surrogate id, which is then advanced.
pub open spec fn appended(
    before: ConfigTable,
    after: ConfigTable,
    component: Seq<char>,
    config_id: i32,
    value: Seq<char>,
) -> bool {
    &&& after.rows.len() == before.rows.len() + 1
    &&& after.next_id == before.next_id + 1
    &&& forall|j: int| 0 <= j < before.rows.len() ==> #[trigger] after.rows[j] == before.rows[j]
    &&& after.rows[before.rows.len() as int].id == before.next_id
    &&& row_has_key(after.rows[before.rows.len() as int], component, config_id)
    &&& after.rows[before.rows.len() as int].value@ == value
}

/// The key of one configuration entry.
pub struct ConfigEntry {
    pub component: String,
    pub config_id: i32,
}

impl ConfigEntry {
    pub fn new(component: &str, config_id: i32) -> (r: ConfigEntry)
        ensures
            r.component@ == component@,
            r.config_id == config_id,
    {
        ConfigEntry { component: component.to_owned(), config_id }
    }

    /// The entry that holds the token authority's settings.
    pub fn jwt() -> (r: ConfigEntry)
        ensures
            r.component@ == SYSTEM_COMPONENT@,
            r.config_id == JWT_CONFIG_ID,
    {
        ConfigEntry::new(SYSTEM_COMPONENT, JWT_CONFIG_ID)
    }

    /// The entry that holds the theme engine's settings.
    pub fn theme_service() -> (r: ConfigEntry)
        ensures
            r.component@ == SYSTEM_COMPONENT@,
            r.config_id == THEME_SERVICE_CONFIG_ID,
    {
        ConfigEntry::new(SYSTEM_COMPONENT, THEME_SERVICE_CONFIG_ID)
    }

    /// The entry that holds the site settings.
    pub fn site() -> (r: ConfigEntry)
        ensures
            r.component@ == SYSTEM_COMPONENT@,
            r.config_id == SITE_CONFIG_ID,
    {
        ConfigEntry::new(SYSTEM_COMPONENT, SITE_CONFIG_ID)
    }

    /// The stored value of this entry, if there is one.
    pub fn get_string(&self, table: &ConfigTable) -> (r: Option<String>)
        requires
            table.wf(),
        ensures
            r is None <==> !table@.contains_key((self.component@, self.config_id)),
            r matches Some(v) ==> v@ == table@[(self.component@, self.config_id)],
    {
        match table.find(&self.component, self.config_id) {
            None => None,
            Some(i) => Some(table.rows[i].value.clone()),
        }
    }

    /// The stored value of this entry, decoded by `decode`: `Ok(None)` when
    /// nothing is stored, and `DecodeError` with the decoder's message when the
    /// stored value does not have the expected shape.
    pub fn get<T, F: Fn(&str) -> Result<T, String>>(&self, table: &ConfigTable, decode: F) -> (r:
        Result<Option<T>, ConfigError>)
        requires
            table.wf(),
            forall|s: &str| #[trigger] decode.requires((s,)),
        ensures
            !table@.contains_key((self.component@, self.config_id)) ==> r matches Ok(None),
            table@.contains_key((self.component@, self.config_id)) ==> decoded_by(
                decode,
                table@[(self.component@, self.config_id)],
                r,
            ),
    {
        match self.get_string(table) {
            None => Ok(None),
            Some(v) => {
                let text = v.as_str();
                let r = match decode(text) {
                    Ok(x) => Ok(Some(x)),
                    Err(m) => Err(ConfigError::DecodeError(m)),
                };
                assert(decode_gave(decode, text, r));
                r
            },
        }
    }

    /// Stores `value` under this entry: the existing row is updated in place,
    /// or a row with a fresh surrogate id is added. Fails, changing nothing,
    /// only when a new row is needed and no surrogate id is left.
    pub fn set_string(&self, table: &mut ConfigTable, value: String) -> (r: Result<(), ConfigError>)
        requires
            old(table).wf(),
        ensures
            final(table).wf(),
            r is Err <==> !old(table)@.contains_key((self.component@, self.config_id))
                && old(table).next_id == i32::MAX,
            r matches Err(e) ==> e is StoreError && *final(table) == *old(table),
            r is Ok ==> final(table)@ == old(table)@.insert((self.component@, self.config_id), value@),
            r is Ok ==> final(table).single_row(self.component@, self.config_id),
            r is Ok && old(table).has_key(self.component@, self.config_id) ==> updated_in_place(
                *old(table),
                *final(table),
                self.component@,
                self.config_id,
                value@,
            ),
            r is Ok && !old(table).has_key(self.component@, self.config_id) ==> appended(
                *old(table),
                *final(table),
                self.component@,
                self.config_id,
                value@,
            ),
    {
        match table.find(&self.component, self.config_id) {
            Some(i) => {
                let row = ConfigRow {
                    id: table.rows[i].id,
                    component: table.rows[i].component.clone(),
                    config_id: table.rows[i].config_id,
                    value,
                };
                let ghost old_rows = table.rows@;
                table.rows.set(i, row);
                proof {
                    assert forall|a: int, b: int| 0 <= a < b < table.rows.len() implies !#[trigger] same_key(table.rows[a], table.rows[b]) by {
                        assert(!same_key(old_rows[a], old_rows[b]));
                    }
                    assert forall|a: int, b: int| 0 <= a < b < table.rows.len() implies #[trigger] table.rows[a].id != #[trigger] table.rows[b].id by {
                        assert(old_rows[a].id != old_rows[b].id);
                    }
                    self.lemma_after_write(*old(table), *table, i as int, value@);
                    assert forall|j: int| 0 <= j < old_rows.len() && j != i implies !row_has_key(
                        #[trigger] old_rows[j],
                        self.component@,
                        self.config_id,
                    ) by {
                        if j < i {
                            assert(!same_key(old_rows[j], old_rows[i as int]));
                        } else {
                            assert(!same_key(old_rows[i as int], old_rows[j]));
                        }
                    }
                }
                Ok(())
            },
            None => {
                if table.next_id == i32::MAX {
                    return Err(ConfigError::StoreError("no row id left".to_owned()));
                }
                let row = ConfigRow {
                    id: table.next_id,
                    component: self.component.clone(),
                    config_id: self.config_id,
                    value,
                };
                let ghost old_rows = table.rows@;
                table.rows.push(row);
                table.next_id = table.next_id + 1;
                proof {
                    assert forall|a: int, b: int| 0 <= a < b < table.rows.len() implies !#[trigger] same_key(table.rows[a], table.rows[b]) by {
                        if b == old_rows.len() {
                            assert(!row_has_key(old_rows[a], self.component@, self.config_id));
                        } else {
                            assert(!same_key(old_rows[a], old_rows[b]));
                        }
                    }
                    assert forall|a: int| 0 <= a < table.rows.len() implies #[trigger] table.rows[a].id < table.next_id by {
                        if a < old_rows.len() {
                            assert(old_rows[a].id < old(table).next_id);
                        }
                    }
                    assert forall|a: int, b: int| 0 <= a < b < table.rows.len() implies #[trigger] table.rows[a].id != #[trigger] table.rows[b].id by {
                        if b < old_rows.len() {
                            assert(old_rows[a].id != old_rows[b].id);
                        } else {
                            assert(old_rows[a].id < old(table).next_id);
                        }
                    }
                    self.lemma_after_write(*old(table), *table, old_rows.len() as int, value@);
                }
                Ok(())
            },
        }
    }

    /// After a write that leaves row `i` holding this key and `value`, and
    /// every other key's rows as they were, the map view is the old one with
    /// this key set to `value`, and only row `i` holds the key.
    proof fn lemma_after_write(&self, before: ConfigTable, after: ConfigTable, i: int, value: Seq<char>)
        requires
            before.wf(),
            after.wf(),
            0 <= i < after.rows.len(),
            row_has_key(after.rows[i], self.component@, self.config_id),
            after.rows[i].value@ == value,
            after.rows.len() == before.rows.len() || after.rows.len() == before.rows.len() + 1,
            after.rows.len() == before.rows.len() + 1 ==> i == before.rows.len() && !before.has_key(self.component@, self.config_id),
            forall|j: int| 0 <= j < before.rows.len() && j != i ==> after.rows[j] == before.rows[j],
            i < before.rows.len() ==> row_has_key(before.rows[i], self.component@, self.config_id),
        ensures
            after@ == before@.insert((self.component@, self.config_id), value),
            after.single_row(self.component@, self.config_id),
    {
        let key = (self.component@, self.config_id);
        assert forall|k: (Seq<char>, i32)| #[trigger] after.has_key(k.0, k.1) == (k == key || before.has_key(k.0, k.1)) by {
            if k == key {
                assert(row_has_key(after.rows[i], k.0, k.1));
            } else {
                if after.has_key(k.0, k.1) {
                    let j = choose|j: int| 0 <= j < after.rows.len() && row_has_key(#[trigger] after.rows[j], k.0, k.1);
                    assert(j != i);
                    assert(row_has_key(before.rows[j], k.0, k.1));
                }
                if before.has_key(k.0, k.1) {
                    let j = choose|j: int| 0 <= j < before.rows.len() && row_has_key(#[trigger] before.rows[j], k.0, k.1);
                    assert(j != i);
                    assert(row_has_key(after.rows[j], k.0, k.1));
                }
            }
        }
        assert forall|k: (Seq<char>, i32)| after.has_key(k.0, k.1) implies #[trigger] after.lookup(k.0, k.1) == (if k == key { Some(value) } else { before.lookup(k.0, k.1) }) by {
            let j = choose|j: int| 0 <= j < after.rows.len() && row_has_key(#[trigger] after.rows[j], k.0, k.1);
            if k == key {
                if j != i {
                    if j < i {
                        assert(!same_key(after.rows[j], after.rows[i]));
                    } else {
                        assert(!same_key(after.rows[i], after.rows[j]));
                    }
                }
            } else {
                assert(j != i);
                assert(row_has_key(before.rows[j], k.0, k.1));
                let m = choose|m: int| 0 <= m < before.rows.len() && row_has_key(#[trigger] before.rows[m], k.0, k.1);
                if m != j {
                    if m < j {
                        assert(!same_key(before.rows[m], before.rows[j]));
                    } else {
                        assert(!same_key(before.rows[j], before.rows[m]));
                    }
                }
            }
        }
        assert(after@ =~= before@.insert(key, value));
        assert forall|j: int| 0 <= j < after.rows.len() && row_has_key(#[trigger] after.rows[j], key.0, key.1) implies j == i by {
            if j < i {
                assert(!same_key(after.rows[j], after.rows[i]));
            } else if j > i {
                assert(!same_key(after.rows[i], after.rows[j]));
            }
        }
    }
}

/// A value written under a key is what a later read of that key returns:
/// after a successful `set_string` the table maps the key to the written
/// value, so `get_string` returns it and `get` decodes exactly that text.
pub proof fn lemma_set_then_get(
    before: ConfigTable,
    after: ConfigTable,
    entry: ConfigEntry,
    value: Seq<char>,
)
    requires
        after@ == before@.insert((entry.component@, entry.config_id), value),
    ensures
        after@.contains_key((entry.component@, entry.config_id)),
        after@[(entry.component@, entry.config_id)] == value,
{
}

/// Writing the same key twice leaves exactly one row for it, holding the
/// second value, and the table as if only the second write had happened.
pub proof fn lemma_set_twice_single_row(
    t0: ConfigTable,
    t1: ConfigTable,
    t2: ConfigTable,
    entry: ConfigEntry,
    v1: Seq<char>,
    v2: Seq<char>,
)
    requires
        t1@ == t0@.insert((entry.component@, entry.config_id), v1),
        t2@ == t1@.insert((entry.component@, entry.config_id), v2),
        t2.wf(),
    ensures
        t2.single_row(entry.component@, entry.config_id),
        t2@[(entry.component@, entry.config_id)] == v2,
        t2@ == t0@.insert((entry.component@, entry.config_id), v2),
{
    let (c, id) = (entry.component@, entry.config_id);
    assert(t2@ =~= t0@.insert((c, id), v2));
    assert(t2@.contains_key((c, id)));
    let i = choose|i: int| 0 <= i < t2.rows.len() && row_has_key(#[trigger] t2.rows[i], c, id);
    assert forall|j: int| 0 <= j < t2.rows.len() && row_has_key(#[trigger] t2.rows[j], c, id) implies j == i by {
        if j < i {
            assert(!same_key(t2.rows[j], t2.rows[i]));
        } else if j > i {
            assert(!same_key(t2.rows[i], t2.rows[j]));
        }
    }
}

} // verus!
