//! Catalog decoding: turns loosely-typed remote records into supported
//! devices, dropping malformed records without aborting the batch, and
//! applies the fail-open policy to the whole response.

use vstd::prelude::*;
use crate::models::{DeviceModel, OptionModel, SoftwareOption, SupportedDevice};
use crate::models::device_models;
use crate::transfer::{is_success_status, spec_is_success_status};

verus! {

/// The options payload found in a record: either a well-formed sequence of
/// software options, or a value that does not decode into one.
pub enum OptionsPayload {
    Decoded(Vec<SoftwareOption>),
    Malformed,
}

/// Spec-level shape of an options payload.
pub enum PayloadModel {
    Decoded(Seq<OptionModel>),
    Malformed,
}

impl View for OptionsPayload {
    type V = PayloadModel;

    open spec fn view(&self) -> PayloadModel {
        match self {
            OptionsPayload::Decoded(opts) => PayloadModel::Decoded(
                opts@.map_values(|o: SoftwareOption| o@),
            ),
            OptionsPayload::Malformed => PayloadModel::Malformed,
        }
    }
}

/// One loosely-typed remote record, each field as the transport delivered
/// it: absent fields are `None`, `vid` and `pid` are `Some` only when the
/// field held a non-negative integer, and each of the two alternate options
/// fields is `Some` whenever it was present at all.
pub struct RawRecord {
    pub name: Option<String>,
    pub vid: Option<u64>,
    pub pid: Option<u64>,
    pub options: Option<OptionsPayload>,
    pub jsonb: Option<OptionsPayload>,
}

/// Spec-level shape of a `RawRecord`.
pub struct RecordModel {
    pub name: Option<Seq<char>>,
    pub vid: Option<u64>,
    pub pid: Option<u64>,
    pub options: Option<PayloadModel>,
    pub jsonb: Option<PayloadModel>,
}

impl View for RawRecord {
    type V = RecordModel;

    open spec fn view(&self) -> RecordModel {
        RecordModel {
            name: match self.name {
                Some(ref s) => Some(s@),
                None => None,
            },
            vid: self.vid,
            pid: self.pid,
            options: match self.options {
                Some(ref p) => Some(p@),
                None => None,
            },
            jsonb: match self.jsonb {
                Some(ref p) => Some(p@),
                None => None,
            },
        }
    }
}

/// The options payload a record supplies: the first present of the two
/// alternate field names, `options` before `jsonb`.
pub open spec fn chosen_payload(r: RecordModel) -> Option<PayloadModel> {
    if r.options is Some {
        r.options
    } else {
        r.jsonb
    }
}

/// How one record decodes: `Some` exactly when `name` is present, `vid` and
/// `pid` are present and representable in 16 bits, and the first present
/// options payload decodes into a sequence of software options; `None`
/// drops the record from the batch.
pub open spec fn decode_record_model(r: RecordModel) -> Option<DeviceModel> {
    if r.name is Some && r.vid is Some && r.pid is Some && r.vid->0 <= 0xFFFF && r.pid->0
        <= 0xFFFF {
        match chosen_payload(r) {
            Some(PayloadModel::Decoded(opts)) => Some(
                DeviceModel {
                    name: r.name->0,
                    vid: r.vid->0 as u16,
                    pid: r.pid->0 as u16,
                    options: opts,
                },
            ),
            _ => None,
        }
    } else {
        None
    }
}

/// The catalog a batch of records decodes to: each record independently,
/// dropped records leaving their siblings untouched.
pub open spec fn decode_catalog_model(records: Seq<RecordModel>) -> Seq<DeviceModel>
    decreases records.len(),
{
    if records.len() == 0 {
        Seq::empty()
    } else {
        decode_catalog_model(records.drop_last()) + (match decode_record_model(records.last()) {
            Some(d) => seq![d],
            None => Seq::empty(),
        })
    }
}

/// Decodes one remote record, or drops it.
pub fn decode_record(r: RawRecord) -> (d: Option<SupportedDevice>)
    ensures
        match d {
            Some(dev) => decode_record_model(r@) == Some(dev@),
            None => decode_record_model(r@) is None,
        },
{
    let RawRecord { name, vid, pid, options, jsonb } = r;
    let payload: Option<OptionsPayload> = match options {
        Some(p) => Some(p),
        None => jsonb,
    };
    match (name, vid, pid, payload) {
        (Some(name), Some(vid), Some(pid), Some(OptionsPayload::Decoded(opts))) => {
            if vid <= 0xFFFF && pid <= 0xFFFF {
                Some(
                    SupportedDevice {
                        name,
                        vid: vid as u16,
                        pid: pid as u16,
                        options: opts,
                    },
                )
            } else {
                None
            }
        },
        _ => None,
    }
}

/// The spec-level view of a sequence of raw records.
pub open spec fn record_models(records: Seq<RawRecord>) -> Seq<RecordModel> {
    records.map_values(|r: RawRecord| r@)
}

/// Decodes a whole batch: records are processed independently and malformed
/// ones are dropped silently rather than aborting the batch.
pub fn decode_catalog(records: Vec<RawRecord>) -> (catalog: Vec<SupportedDevice>)
    ensures
        device_models(catalog@) == decode_catalog_model(record_models(records@)),
{
    let ghost rmodels = record_models(records@);
    let mut catalog: Vec<SupportedDevice> = Vec::new();
    let mut records = records;
    let len0: usize = records.len();
    let ghost n = rmodels.len();
    proof {
        assert(n == len0);
        assert(record_models(records@) =~= rmodels.skip(0));
        assert(device_models(catalog@) =~= decode_catalog_model(rmodels.take(0)));
    }
    let mut k: usize = 0;
    // Consume the records from the front, keeping the ones already decoded.
    while records.len() > 0
        invariant
            k + records@.len() == n,
            n <= usize::MAX,
            rmodels.len() == n,
            record_models(records@) =~= rmodels.skip(k as int),
            device_models(catalog@) == decode_catalog_model(rmodels.take(k as int)),
        decreases records.len(),
    {
        let ghost pre = records@;
        let r = records.remove(0);
        proof {
            assert(record_models(pre)[0] == r@);
            assert(rmodels.skip(k as int)[0] == rmodels[k as int]);
            assert forall|i: int| 0 <= i < records@.len() implies record_models(records@)[i]
                == rmodels.skip(k as int + 1)[i] by {
                assert(records@[i] == pre[i + 1]);
                assert(record_models(pre)[i + 1] == rmodels.skip(k as int)[i + 1]);
            }
            assert(record_models(records@) =~= rmodels.skip(k as int + 1));
            assert(rmodels.take(k as int + 1).drop_last() =~= rmodels.take(k as int));
            assert(rmodels.take(k as int + 1).last() == rmodels[k as int]);
        }
        let ghost before = device_models(catalog@);
        match decode_record(r) {
            Some(dev) => {
                catalog.push(dev);
                proof {
                    assert(device_models(catalog@) =~= before.push(dev@));
                    assert(before.push(dev@) =~= before + seq![dev@]);
                }
            },
            None => {
                proof {
                    assert(before + Seq::<DeviceModel>::empty() =~= before);
                }
            },
        }
        k = k + 1;
    }
    proof {
        assert(rmodels.take(n as int) =~= rmodels);
    }
    catalog
}

/// The catalog obtained from one fetch attempt, fail-open: a non-success
/// status or a body that did not parse into records yields the empty
/// catalog, never an error, so a scan still completes with zero matches.
pub fn catalog_from_response(status: u16, records: Option<Vec<RawRecord>>) -> (catalog: Vec<
    SupportedDevice,
>)
    ensures
        spec_is_success_status(status) && records is Some ==> device_models(catalog@)
            == decode_catalog_model(record_models(records->0@)),
        !(spec_is_success_status(status) && records is Some) ==> device_models(catalog@)
            == Seq::<DeviceModel>::empty(),
{
    proof {
        assert(device_models(Seq::<SupportedDevice>::empty()) =~= Seq::<DeviceModel>::empty());
    }
    if is_success_status(status) {
        match records {
            Some(rs) => decode_catalog(rs),
            None => Vec::new(),
        }
    } else {
        Vec::new()
    }
}

/// Law: a record missing both alternate options fields is dropped, while
/// every sibling record in the batch decodes as it would without it.
pub proof fn lemma_missing_payload_record_dropped(
    records: Seq<RecordModel>,
    k: int,
)
    requires
        0 <= k < records.len(),
        records[k].options is None,
        records[k].jsonb is None,
    ensures
        decode_record_model(records[k]) is None,
        decode_catalog_model(records) == decode_catalog_model(records.remove(k)),
{
    lemma_dropped_record_preserves_siblings(records, k);
}

/// A record that decodes to nothing leaves the decoded batch exactly as the
/// batch without it.
pub proof fn lemma_dropped_record_preserves_siblings(records: Seq<RecordModel>, k: int)
    requires
        0 <= k < records.len(),
        decode_record_model(records[k]) is None,
    ensures
        decode_catalog_model(records) == decode_catalog_model(records.remove(k)),
    decreases records.len(),
{
    if k == records.len() - 1 {
        assert(records.remove(k) =~= records.drop_last());
        assert(decode_catalog_model(records.drop_last()) + Seq::<DeviceModel>::empty()
            =~= decode_catalog_model(records.drop_last()));
    } else {
        lemma_dropped_record_preserves_siblings(records.drop_last(), k);
        assert(records.remove(k).drop_last() =~= records.drop_last().remove(k));
        assert(records.remove(k).last() == records.last());
    }
}

} // verus!
