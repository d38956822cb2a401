//! The shell's LLM settings, kept in the OS keychain (service
//! `"InterPrep"`, one entry per field): which provider answers and each
//! provider's key. Saving also deletes entries of retired fields.
use vstd::prelude::*;
use crate::desktop::credentials::{op_for, service, service_spec, stored, stored_values, Lookup, OpView, StoreOp};
use crate::keychain::{Asked, Keychain, is_op_on, is_read_of, op_call, read_value};

verus! {

#[derive(Default, Clone, Debug)]
pub struct Credentials {
    /// `"gemini"`, `"openai"` or `"anthropic"`; blank means gemini.
    pub llm_provider: String,
    pub gemini_api_key: String,
    pub openai_api_key: String,
    pub anthropic_api_key: String,
}

/// The `llm` settings attached to every backend request.
#[derive(Clone, Debug)]
pub struct LlmConfig {
    pub provider: String,
    pub gemini_api_key: String,
    pub openai_api_key: String,
    pub anthropic_api_key: String,
}

/// The provider that answers: the trimmed setting, or gemini when blank.
pub open spec fn provider_of(setting: Seq<char>) -> Seq<char> {
    if crate::text::trim(setting).len() == 0 {
        "gemini"@
    } else {
        crate::text::trim(setting)
    }
}

/// The keychain entry names of the fields, in field order.
pub open spec fn field_names_spec() -> Seq<Seq<char>> {
    seq!["llm_provider"@, "gemini_api_key"@, "openai_api_key"@, "anthropic_api_key"@]
}

/// Entries of retired fields, deleted on every save.
pub open spec fn legacy_fields_spec() -> Seq<Seq<char>> {
    seq![
        "glassdoor_email"@,
        "glassdoor_password"@,
        "indeed_email"@,
        "indeed_password"@,
        "groq_api_key"@,
        "ollama_base_url"@,
        "ollama_model"@,
    ]
}

pub fn legacy_fields() -> (r: Vec<&'static str>)
    ensures
        r@.map_values(|s: &'static str| s@) == legacy_fields_spec(),
{
    let r = vec![
        "glassdoor_email",
        "glassdoor_password",
        "indeed_email",
        "indeed_password",
        "groq_api_key",
        "ollama_base_url",
        "ollama_model",
    ];
    assert(r@.map_values(|s: &'static str| s@) =~= legacy_fields_spec());
    r
}

pub fn field_names() -> (r: Vec<&'static str>)
    ensures
        r@.map_values(|s: &'static str| s@) == field_names_spec(),
{
    let r = vec!["llm_provider", "gemini_api_key", "openai_api_key", "anthropic_api_key"];
    assert(r@.map_values(|s: &'static str| s@) =~= field_names_spec());
    r
}

impl Credentials {
    pub open spec fn values(&self) -> Seq<Seq<char>> {
        seq![self.llm_provider@, self.gemini_api_key@, self.openai_api_key@, self.anthropic_api_key@]
    }

    /// Credentials made of the field values read back, in field order.
    pub fn from_values(values: Vec<String>) -> (r: Self)
        requires
            values@.len() == 4,
        ensures
            r.values() == crate::desktop::types::strings_view(values@),
    {
        let ghost given = values@;
        let mut values = values;
        let anthropic_api_key = values.pop().unwrap();
        let openai_api_key = values.pop().unwrap();
        let gemini_api_key = values.pop().unwrap();
        let llm_provider = values.pop().unwrap();
        let r = Credentials { llm_provider, gemini_api_key, openai_api_key, anthropic_api_key };
        assert(r.values() =~= crate::desktop::types::strings_view(given));
        r
    }

    /// `(entry name, value)` for every field, in field order: what a save
    /// writes (an empty value deletes the entry).
    pub fn entries(&self) -> (r: Vec<(&'static str, String)>)
        ensures
            r@.len() == 4,
            forall|i: int|
                0 <= i < 4 ==> (#[trigger] r@[i]).0@ == field_names_spec()[i] && r@[i].1@
                    == self.values()[i],
    {
        let mut r: Vec<(&'static str, String)> = Vec::new();
        r.push(("llm_provider", self.llm_provider.clone()));
        r.push(("gemini_api_key", self.gemini_api_key.clone()));
        r.push(("openai_api_key", self.openai_api_key.clone()));
        r.push(("anthropic_api_key", self.anthropic_api_key.clone()));
        r
    }

    /// Credentials made of the reads of the fields' entries, in field order:
    /// each field is what its read gives ([`stored`]).
    pub fn from_lookups(ls: Vec<Lookup>) -> (r: Self)
        requires
            ls@.len() == 4,
        ensures
            r.values() == ls@.map_values(|l: Lookup| stored(l)),
    {
        let ghost given = ls@;
        let values = stored_values(ls);
        assert(crate::desktop::types::strings_view(values@).len() == values@.len());
        assert(given.map_values(|l: Lookup| stored(l)).len() == 4);
        Self::from_values(values)
    }

    /// Reads the entry of every field ([`field_names`]) under the service
    /// `"InterPrep"` from the keychain `kc`, in field order: one call per
    /// field is logged, the read of its entry or the failed open of it, and
    /// each field is the value that call read (empty when there was none).
    pub fn load(kc: &mut Keychain) -> (r: Self)
        ensures
            final(kc).log@.len() == old(kc).log@.len() + 4,
            final(kc).log@.take(old(kc).log@.len() as int) == old(kc).log@,
            forall|i: int|
                0 <= i < 4 ==> is_read_of(
                    #[trigger] final(kc).log@.skip(old(kc).log@.len() as int)[i],
                    service_spec(),
                    field_names_spec()[i],
                ) && r.values()[i] == read_value(final(kc).log@.skip(old(kc).log@.len() as int)[i]),
    {
        let ghost start = kc.log@;
        let names = field_names();
        proof {
            assert(names@.len() == field_names_spec().len());
        }
        let mut ls: Vec<Lookup> = Vec::new();
        let mut i: usize = 0;
        while i < names.len()
            invariant
                i <= names@.len(),
                names@.len() == 4,
                names@.map_values(|s: &'static str| s@) == field_names_spec(),
                ls@.len() == i,
                kc.log@.len() == start.len() + i,
                kc.log@.take(start.len() as int) == start,
                forall|k: int|
                    0 <= k < i ==> is_read_of(#[trigger] kc.log@.skip(start.len() as int)[k], service_spec(), field_names_spec()[k])
                        && stored(ls@[k]) == read_value(kc.log@.skip(start.len() as int)[k]),
            decreases names.len() - i,
        {
            let ghost before = kc.log@;
            assert(names@[i as int]@ == field_names_spec()[i as int]);
            let l = crate::keychain::lookup(kc, service(), names[i]);
            ls.push(l);
            proof {
                assert(kc.log@.take(start.len() as int) =~= before.take(start.len() as int));
                assert forall|k: int| 0 <= k < i + 1 implies is_read_of(
                    #[trigger] kc.log@.skip(start.len() as int)[k],
                    service_spec(),
                    field_names_spec()[k],
                ) && stored(ls@[k]) == read_value(kc.log@.skip(start.len() as int)[k]) by {
                    if k < i {
                        assert(kc.log@.skip(start.len() as int)[k] == before.skip(start.len() as int)[k]);
                    } else {
                        assert(kc.log@.skip(start.len() as int)[k] == kc.log@.last());
                    }
                }
            }
            i += 1;
        }
        Self::from_lookups(ls)
    }

    /// Persists every field to the keychain `kc` under the service
    /// `"InterPrep"`, in field order: an empty value deletes its entry, any
    /// other is written. It stops at the first field that fails, with that
    /// field's error ([`field_result`]); when all succeed it then deletes
    /// the entry of every retired field, whatever comes of those. One call
    /// is logged per field tried and per retired entry: the write or
    /// delete, or the failed open of the entry.
    pub fn save(&self, kc: &mut Keychain) -> (r: Result<(), String>)
        ensures
            final(kc).log@.take(old(kc).log@.len() as int) == old(kc).log@,
            r is Ok ==> final(kc).log@.len() == old(kc).log@.len() + 11 && fields_written(
                final(kc).log@.skip(old(kc).log@.len() as int),
                self.values(),
                4,
            ) && legacy_deleted(final(kc).log@.skip(old(kc).log@.len() + 4int)),
            r matches Err(e) ==> exists|k: int|
                0 <= k < 4 && final(kc).log@.len() == old(kc).log@.len() + k + 1 && fields_written(
                    final(kc).log@.skip(old(kc).log@.len() as int),
                    self.values(),
                    k,
                ) && is_op_on(
                    final(kc).log@.last(),
                    service_spec(),
                    field_names_spec()[k],
                    op_for(self.values()[k]),
                ) && #[trigger] field_error(field_names_spec()[k], self.values()[k], e@),
            r matches Err(e) ==> save_error(self.values(), e@),
    {
        let ghost start = kc.log@;
        let ghost n = start.len() as int;
        let entries = self.entries();
        let mut i: usize = 0;
        while i < entries.len()
            invariant
                entries@.len() == 4,
                i <= 4,
                forall|k: int|
                    0 <= k < 4 ==> (#[trigger] entries@[k]).0@ == field_names_spec()[k] && entries@[k].1@
                        == self.values()[k],
                n == start.len(),
                start == old(kc).log@,
                kc.log@.len() == n + i,
                kc.log@.take(n) == start,
                fields_written(kc.log@.skip(n), self.values(), i as int),
            decreases 4 - i,
        {
            let ghost log0 = kc.log@;
            let field = entries[i].0;
            let value = entries[i].1.as_str();
            let op = crate::desktop::credentials::store_op(value);
            let outcome = crate::keychain::apply(kc, service(), field, op);
            proof {
                assert(kc.log@.take(n) =~= log0.take(n));
                assert forall|k: int| 0 <= k < i implies #[trigger] kc.log@.skip(n)[k] == op_call(
                    service_spec(),
                    field_names_spec()[k],
                    op_for(self.values()[k]),
                ) by {
                    assert(kc.log@.skip(n)[k] == log0.skip(n)[k]);
                }
            }
            match field_result(field, value, outcome) {
                Ok(()) => {
                    assert(kc.log@.skip(n)[i as int] == kc.log@.last());
                },
                Err(e) => {
                    assert(field_error(field_names_spec()[i as int], self.values()[i as int], e@));
                    return Err(e);
                },
            }
            i += 1;
        }
        let legacy = legacy_fields();
        let ghost mid = kc.log@;
        let mut j: usize = 0;
        while j < legacy.len()
            invariant
                j <= legacy.len(),
                legacy@.map_values(|s: &'static str| s@) == legacy_fields_spec(),
                n == start.len(),
                start == old(kc).log@,
                mid.len() == n + 4,
                mid.take(n) == start,
                fields_written(mid.skip(n), self.values(), 4),
                kc.log@.len() == n + 4 + j,
                kc.log@.take(n + 4) == mid,
                forall|t: int|
                    0 <= t < j ==> is_op_on(
                        #[trigger] kc.log@.skip(n + 4)[t],
                        service_spec(),
                        legacy_fields_spec()[t],
                        OpView::Delete,
                    ),
            decreases legacy.len() - j,
        {
            let ghost log0 = kc.log@;
            assert(legacy@[j as int]@ == legacy_fields_spec()[j as int]);
            let _ = crate::keychain::apply(kc, service(), legacy[j], StoreOp::Delete);
            proof {
                assert(kc.log@.take(n + 4) =~= log0.take(n + 4));
                assert forall|t: int| 0 <= t < j + 1 implies is_op_on(
                    #[trigger] kc.log@.skip(n + 4)[t],
                    service_spec(),
                    legacy_fields_spec()[t],
                    OpView::Delete,
                ) by {
                    if t < j {
                        assert(kc.log@.skip(n + 4)[t] == log0.skip(n + 4)[t]);
                    } else {
                        assert(kc.log@.skip(n + 4)[t] == kc.log@.last());
                    }
                }
            }
            j += 1;
        }
        proof {
            assert(legacy@.len() == legacy_fields_spec().len());
            assert(kc.log@.skip(n + 4).len() == 7);
            assert(kc.log@.take(n) =~= mid.take(n));
            assert forall|k: int| 0 <= k < 4 implies #[trigger] kc.log@.skip(n)[k] == op_call(
                service_spec(),
                field_names_spec()[k],
                op_for(self.values()[k]),
            ) by {
                assert(kc.log@.skip(n)[k] == mid.skip(n)[k]);
            }
        }
        Ok(())
    }

    /// The `llm` settings: the provider ([`provider_of`]) and every key.
    pub fn llm_config(&self) -> (r: LlmConfig)
        ensures
            r.provider@ == provider_of(self.llm_provider@),
            r.gemini_api_key == self.gemini_api_key,
            r.openai_api_key == self.openai_api_key,
            r.anthropic_api_key == self.anthropic_api_key,
    {
        let t = crate::text::trimmed(self.llm_provider.as_str());
        let provider = if t.as_str().is_empty() {
            crate::text::owned("gemini")
        } else {
            t
        };
        LlmConfig {
            provider,
            gemini_api_key: self.gemini_api_key.clone(),
            openai_api_key: self.openai_api_key.clone(),
            anthropic_api_key: self.anthropic_api_key.clone(),
        }
    }
}

/// The error of a failed save of `value` to the entry `field`, the
/// keychain having said `d`.
pub open spec fn write_failed(field: Seq<char>, value: Seq<char>, d: Seq<char>) -> Seq<char> {
    (if value.len() == 0 {
        "delete "@
    } else {
        "write "@
    }) + field + " failed: "@ + d
}

/// Whether `e` is what a failed save of `value` to the entry `field`
/// reports: the entry cannot be opened, or writing or deleting it failed.
pub open spec fn field_error(field: Seq<char>, value: Seq<char>, e: Seq<char>) -> bool {
    e == "cannot open keyring entry for "@ + field || exists|d: Seq<char>| e == #[trigger] write_failed(field, value, d)
}

/// What a failed save of the field values `values` may report: the failure
/// of some field ([`field_error`]).
pub open spec fn save_error(values: Seq<Seq<char>>, e: Seq<char>) -> bool {
    exists|i: int| 0 <= i < 4 && #[trigger] field_error(field_names_spec()[i], values[i], e)
}

/// The calls `calls` begin with the write or delete of the first `k`
/// fields, in order, saving `values` under `"InterPrep"`.
pub open spec fn fields_written(calls: Seq<Asked>, values: Seq<Seq<char>>, k: int) -> bool {
    forall|i: int|
        0 <= i < k ==> #[trigger] calls[i] == op_call(service_spec(), field_names_spec()[i], op_for(values[i]))
}

/// The calls `calls` are one deletion (or failed open) of each retired
/// entry under `"InterPrep"`, in order.
pub open spec fn legacy_deleted(calls: Seq<Asked>) -> bool {
    &&& calls.len() == 7
    &&& forall|j: int|
        0 <= j < 7 ==> is_op_on(#[trigger] calls[j], service_spec(), legacy_fields_spec()[j], OpView::Delete)
}

/// The result of saving `value` to the entry `field`, the keychain having
/// answered `outcome` (`None`: the entry could not be opened).
pub fn field_result(field: &str, value: &str, outcome: Option<WriteOutcome>) -> (r: Result<(), String>)
    ensures
        match outcome {
            None => (r matches Err(e) && e@ == "cannot open keyring entry for "@ + field@),
            Some(WriteOutcome::Done) => r is Ok,
            Some(WriteOutcome::NoEntry) => r is Ok,
            Some(WriteOutcome::Failed(d)) => (r matches Err(e) && e@ == write_failed(field@, value@, d@)),
        },
{
    match outcome {
        None => Err(open_failed(field)),
        Some(o) => write_result(field, value, o),
    }
}

/// How writing one keychain entry ended.
pub enum WriteOutcome {
    Done,
    /// The entry to delete did not exist (the keychain's `NoEntry` on a
    /// delete).
    NoEntry,
    /// The keychain refused; the text says why.
    Failed(String),
}

/// The result of saving `value` to the entry `field`: deleting a missing
/// entry is fine; a refusal is reported with the field's name.
pub fn write_result(field: &str, value: &str, outcome: WriteOutcome) -> (r: Result<(), String>)
    ensures
        match outcome {
            WriteOutcome::Done => r is Ok,
            WriteOutcome::NoEntry => r is Ok,
            WriteOutcome::Failed(d) => (r matches Err(e) && e@ == write_failed(field@, value@, d@)),
        },
{
    match outcome {
        WriteOutcome::Done => Ok(()),
        WriteOutcome::NoEntry => Ok(()),
        WriteOutcome::Failed(d) => {
            let mut m = if value.is_empty() {
                crate::text::owned("delete ")
            } else {
                crate::text::owned("write ")
            };
            crate::text::push_str(&mut m, field);
            crate::text::push_str(&mut m, " failed: ");
            crate::text::push_str(&mut m, d.as_str());
            Err(m)
        },
    }
}

/// The error for a keychain entry that cannot be opened.
pub fn open_failed(field: &str) -> (r: String)
    ensures
        r@ == "cannot open keyring entry for "@ + field@,
{
    let mut m = crate::text::owned("cannot open keyring entry for ");
    crate::text::push_str(&mut m, field);
    m
}

} // verus!
