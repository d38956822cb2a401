//! API key and scraper logins of the desktop program, kept in the OS
//! keychain: one entry per field under the service `"InterPrep"`. A missing
//! entry reads as an empty field, and saving an empty field deletes its
//! entry.
use vstd::prelude::*;
use crate::desktop::types::strings_view;
use crate::keychain::{Keychain, is_op_on, is_read_of, read_value};

verus! {

/// The keychain service every entry is filed under.
pub open spec fn service_spec() -> Seq<char> {
    "InterPrep"@
}

pub fn service() -> (r: &'static str)
    ensures
        r@ == service_spec(),
{
    "InterPrep"
}

/// All credentials the desktop program persists.
#[derive(Default, Clone, Debug)]
pub struct Credentials {
    pub gemini_api_key: String,
    pub glassdoor_email: String,
    pub glassdoor_password: String,
    pub indeed_email: String,
    pub indeed_password: String,
}

/// The keychain entry names of the fields, in field order.
pub open spec fn field_names_spec() -> Seq<Seq<char>> {
    seq![
        "gemini_api_key"@,
        "glassdoor_email"@,
        "glassdoor_password"@,
        "indeed_email"@,
        "indeed_password"@,
    ]
}

pub fn field_names() -> (r: Vec<&'static str>)
    ensures
        r@.map_values(|s: &'static str| s@) == field_names_spec(),
{
    let r = vec!["gemini_api_key", "glassdoor_email", "glassdoor_password", "indeed_email", "indeed_password"];
    assert(r@.map_values(|s: &'static str| s@) =~= field_names_spec());
    r
}

/// One keychain read: the stored value, no entry, or a failure.
pub enum Lookup {
    Found(String),
    NoEntry,
    Failed,
}

/// The field value a read gives: the stored value, else empty.
pub open spec fn stored(l: Lookup) -> Seq<char> {
    match l {
        Lookup::Found(v) => v@,
        _ => Seq::<char>::empty(),
    }
}

pub fn stored_value(l: Lookup) -> (r: String)
    ensures
        r@ == stored(l),
{
    match l {
        Lookup::Found(v) => v,
        _ => String::new(),
    }
}

/// The field values the reads `ls` give, in order.
pub fn stored_values(ls: Vec<Lookup>) -> (r: Vec<String>)
    ensures
        crate::desktop::types::strings_view(r@) == ls@.map_values(|l: Lookup| stored(l)),
{
    let ghost all = ls@;
    let n: usize = ls.len();
    let mut ls = ls;
    let mut r: Vec<String> = Vec::new();
    let mut k: usize = 0;
    while ls.len() > 0
        invariant
            k + ls@.len() == all.len(),
            all.len() == n,
            ls@ == all.skip(k as int),
            crate::desktop::types::strings_view(r@) == all.take(k as int).map_values(|l: Lookup| stored(l)),
        decreases ls.len(),
    {
        let ghost before = r@;
        let l = ls.remove(0);
        assert(l == all[k as int]);
        r.push(stored_value(l));
        proof {
            assert(crate::desktop::types::strings_view(r@) =~= crate::desktop::types::strings_view(before).push(
                stored(all[k as int]),
            ));
            assert(all.take(k + 1).map_values(|l: Lookup| stored(l)) =~= all.take(k as int).map_values(
                |l: Lookup| stored(l),
            ).push(stored(all[k as int])));
            assert(ls@ =~= all.skip(k + 1));
        }
        k += 1;
    }
    assert(all.take(k as int) =~= all);
    r
}

/// What saving a field does to its keychain entry.
pub enum StoreOp {
    /// The field is empty: the entry is deleted (a missing entry is fine).
    Delete,
    /// The entry is set to the value.
    Write(String),
}

pub enum OpView {
    Delete,
    Write(Seq<char>),
}

impl View for StoreOp {
    type V = OpView;

    open spec fn view(&self) -> OpView {
        match self {
            StoreOp::Delete => OpView::Delete,
            StoreOp::Write(v) => OpView::Write(v@),
        }
    }
}

/// What saving the value `v` does to its entry.
pub open spec fn op_for(v: Seq<char>) -> OpView {
    if v.len() == 0 {
        OpView::Delete
    } else {
        OpView::Write(v)
    }
}

pub fn store_op(value: &str) -> (r: StoreOp)
    ensures
        r@ == op_for(value@),
        value@.len() == 0 ==> r is Delete,
        value@.len() > 0 ==> (r matches StoreOp::Write(v) && v@ == value@),
{
    if value.is_empty() {
        StoreOp::Delete
    } else {
        StoreOp::Write(crate::text::owned(value))
    }
}

impl Credentials {
    /// The field values, in field order.
    pub open spec fn values(&self) -> Seq<Seq<char>> {
        seq![
            self.gemini_api_key@,
            self.glassdoor_email@,
            self.glassdoor_password@,
            self.indeed_email@,
            self.indeed_password@,
        ]
    }

    /// Credentials made of the field values read back, in field order.
    pub fn from_values(values: Vec<String>) -> (r: Self)
        requires
            values@.len() == 5,
        ensures
            r.values() == strings_view(values@),
    {
        let ghost given = values@;
        let mut values = values;
        let indeed_password = values.pop().unwrap();
        let indeed_email = values.pop().unwrap();
        let glassdoor_password = values.pop().unwrap();
        let glassdoor_email = values.pop().unwrap();
        let gemini_api_key = values.pop().unwrap();
        let r = Credentials { gemini_api_key, glassdoor_email, glassdoor_password, indeed_email, indeed_password };
        assert(r.values() =~= strings_view(given));
        r
    }

    /// Credentials made of the reads of the fields' entries, in field order:
    /// each field is what its read gives ([`stored`]).
    pub fn from_lookups(ls: Vec<Lookup>) -> (r: Self)
        requires
            ls@.len() == 5,
        ensures
            r.values() == ls@.map_values(|l: Lookup| stored(l)),
    {
        let ghost given = ls@;
        let values = stored_values(ls);
        assert(crate::desktop::types::strings_view(values@).len() == values@.len());
        assert(given.map_values(|l: Lookup| stored(l)).len() == 5);
        Self::from_values(values)
    }

    /// Reads the entry of every field ([`field_names`]) under the service
    /// `"InterPrep"` from the keychain `kc`, in field order: one call per
    /// field is logged, the read of its entry or the failed open of it, and
    /// each field is the value that call read (empty when there was none).
    pub fn load(kc: &mut Keychain) -> (r: Self)
        ensures
            final(kc).log@.len() == old(kc).log@.len() + 5,
            final(kc).log@.take(old(kc).log@.len() as int) == old(kc).log@,
            forall|i: int|
                0 <= i < 5 ==> is_read_of(
                    #[trigger] final(kc).log@[old(kc).log@.len() + i],
                    service_spec(),
                    field_names_spec()[i],
                ) && r.values()[i] == read_value(final(kc).log@[old(kc).log@.len() + i]),
    {
        let ghost start = kc.log@;
        let names = field_names();
        proof {
            assert(names@.len() == field_names_spec().len());
        }
        let mut ls: Vec<Lookup> = Vec::new();
        let mut i: usize = 0;
        while i < names.len()
            invariant
                i <= names@.len(),
                names@.len() == 5,
                names@.map_values(|s: &'static str| s@) == field_names_spec(),
                ls@.len() == i,
                kc.log@.len() == start.len() + i,
                kc.log@.take(start.len() as int) == start,
                forall|k: int|
                    0 <= k < i ==> is_read_of(#[trigger] kc.log@[start.len() + k], service_spec(), field_names_spec()[k])
                        && stored(ls@[k]) == read_value(kc.log@[start.len() + k]),
            decreases names.len() - i,
        {
            let ghost before = kc.log@;
            assert(names@[i as int]@ == field_names_spec()[i as int]);
            let l = crate::keychain::lookup(kc, service(), names[i]);
            ls.push(l);
            proof {
                assert(kc.log@.take(start.len() as int) =~= before.take(start.len() as int));
                assert forall|k: int| 0 <= k < i + 1 implies is_read_of(
                    #[trigger] kc.log@[start.len() + k],
                    service_spec(),
                    field_names_spec()[k],
                ) && stored(ls@[k]) == read_value(kc.log@[start.len() + k]) by {
                    if k < i {
                        assert(kc.log@[start.len() + k] == before[start.len() + k]);
                    }
                }
            }
            i += 1;
        }
        let r = Self::from_lookups(ls);
        r
    }

    /// Persists every field to the keychain `kc` under the service
    /// `"InterPrep"`, in field order: an empty field deletes its entry, any
    /// other is written. One call per field is logged, the write or delete
    /// or the failed open of the entry, each made whatever became of the
    /// ones before. Failures are not reported.
    pub fn save(&self, kc: &mut Keychain)
        ensures
            final(kc).log@.len() == old(kc).log@.len() + 5,
            final(kc).log@.take(old(kc).log@.len() as int) == old(kc).log@,
            forall|i: int|
                0 <= i < 5 ==> is_op_on(
                    #[trigger] final(kc).log@[old(kc).log@.len() + i],
                    service_spec(),
                    field_names_spec()[i],
                    op_for(self.values()[i]),
                ),
    {
        let ghost start = kc.log@;
        let ops = self.save_ops();
        let mut ops = ops;
        let mut k: usize = 0;
        while ops.len() > 0
            invariant
                k + ops@.len() == 5,
                kc.log@.len() == start.len() + k,
                kc.log@.take(start.len() as int) == start,
                forall|i: int|
                    0 <= i < ops@.len() ==> (#[trigger] ops@[i]).0@ == field_names_spec()[k + i] && ops@[i].1@ == op_for(
                        self.values()[k + i],
                    ),
                forall|i: int|
                    0 <= i < k ==> is_op_on(
                        #[trigger] kc.log@[start.len() + i],
                        service_spec(),
                        field_names_spec()[i],
                        op_for(self.values()[i]),
                    ),
            decreases ops.len(),
        {
            let ghost before = ops@;
            let ghost log0 = kc.log@;
            let (field, op) = ops.remove(0);
            assert(before[0] == (field, op));
            let _ = crate::keychain::apply(kc, service(), field, op);
            proof {
                assert(kc.log@.take(start.len() as int) =~= log0.take(start.len() as int));
                assert forall|i: int| 0 <= i < k + 1 implies is_op_on(
                    #[trigger] kc.log@[start.len() + i],
                    service_spec(),
                    field_names_spec()[i],
                    op_for(self.values()[i]),
                ) by {
                    if i < k {
                        assert(kc.log@[start.len() + i] == log0[start.len() + i]);
                    }
                }
                assert forall|i: int| 0 <= i < ops@.len() implies (#[trigger] ops@[i]).0@ == field_names_spec()[k + 1 + i]
                    && ops@[i].1@ == op_for(self.values()[k + 1 + i]) by {
                    assert(ops@[i] == before[i + 1]);
                }
            }
            k += 1;
        }
    }

    /// `(entry name, what saving does to it)` for every field, in order.
    pub fn save_ops(&self) -> (r: Vec<(&'static str, StoreOp)>)
        ensures
            r@.len() == 5,
            forall|i: int|
                0 <= i < 5 ==> (#[trigger] r@[i]).0@ == field_names_spec()[i] && r@[i].1@ == op_for(self.values()[i])
                    && (if self.values()[i].len() == 0 {
                    r@[i].1 is Delete
                } else {
                    (r@[i].1 matches StoreOp::Write(v) && v@ == self.values()[i])
                }),
    {
        let mut r: Vec<(&'static str, StoreOp)> = Vec::new();
        r.push(("gemini_api_key", store_op(self.gemini_api_key.as_str())));
        r.push(("glassdoor_email", store_op(self.glassdoor_email.as_str())));
        r.push(("glassdoor_password", store_op(self.glassdoor_password.as_str())));
        r.push(("indeed_email", store_op(self.indeed_email.as_str())));
        r.push(("indeed_password", store_op(self.indeed_password.as_str())));
        r
    }
}

} // verus!
