//! The byte image of a list of slot records, written and read as MessagePack.
//!
//! A record is made of plain values only, and its numbers have the same width
//! on every machine, so that what a sequence of bytes holds does not depend on
//! where it is read.

use vstd::prelude::*;

verus! {

/// One slot as it is written: its index, then the text of a text slot or
/// nothing, then the width, height and pixel bytes of an image slot or nothing.
pub type Record = (u32, Option<String>, Option<(u64, u64, Vec<u8>)>);

/// The mathematical value of a [`Record`].
pub type RecordModel = (u32, Option<Seq<char>>, Option<(u64, u64, Seq<u8>)>);

/// The mathematical value of a record.
pub open spec fn record_model(record: Record) -> RecordModel {
    (
        record.0,
        match record.1 {
            Some(text) => Some(text@),
            None => None,
        },
        match record.2 {
            Some((width, height, data)) => Some((width, height, data@)),
            None => None,
        },
    )
}

/// The mathematical value of a list of records.
pub open spec fn records_model(records: Seq<Record>) -> Seq<RecordModel> {
    Seq::new(records.len(), |i: int| record_model(records[i]))
}

/// Whether the encoder can count a list of records: the list, and the pixel
/// bytes of each image in it, must not be longer than a 32-bit number says.
/// The encoder counts the items of a longer sequence one by one in 32 bits,
/// and that count overflows.
pub open spec fn countable(records: Seq<RecordModel>) -> bool {
    &&& records.len() <= u32::MAX
    &&& forall|i: int|
        0 <= i < records.len() ==> match (#[trigger] records[i]).2 {
            Some(image) => image.2.len() <= u32::MAX,
            None => true,
        }
}

/// Whether the encoder can count `records`.
pub fn is_countable(records: &Vec<Record>) -> (ok: bool)
    ensures
        ok == countable(records_model(records@)),
{
    if records.len() > u32::MAX as usize {
        return false;
    }
    let mut at: usize = 0;
    while at < records.len()
        invariant
            at <= records.len(),
            records.len() <= u32::MAX,
            forall|i: int|
                0 <= i < at ==> match (#[trigger] records_model(records@)[i]).2 {
                    Some(image) => image.2.len() <= u32::MAX,
                    None => true,
                },
        decreases records.len() - at,
    {
        match &records[at].2 {
            Some(image) => {
                if image.2.len() > u32::MAX as usize {
                    assert(records_model(records@)[at as int].2 == Some(
                        (image.0, image.1, image.2@),
                    ));
                    return false;
                }
            },
            None => {},
        }
        at += 1;
    }
    true
}

/// The bytes that `rmp_serde::to_vec` gives for a list of records, or nothing
/// where it reports an error.
pub uninterp spec fn packed(records: Seq<RecordModel>) -> Option<Seq<u8>>;

/// What `rmp_serde::from_read` makes of a sequence of bytes when it is asked
/// for a list of records: the list, or nothing where it reports an error.
pub uninterp spec fn unpacked(bytes: Seq<u8>) -> Option<Seq<RecordModel>>;

/// The error of `rmp_serde::to_vec`. Nothing is read from it.
#[verifier::external_type_specification]
#[verifier::external_body]
pub struct ExEncodeError(rmp_serde::encode::Error);

/// The error of `rmp_serde::from_read`. Nothing is read from it.
#[verifier::external_type_specification]
#[verifier::external_body]
pub struct ExDecodeError(rmp_serde::decode::Error);

/// Calls `rmp_serde::to_vec` on a list of records that it can count; on a
/// longer sequence its count of the items can overflow, so such a list is not
/// handed to it. The one claim is that the outcome depends on the records
/// alone: the same list gives the same bytes, or an error, every time.
/// Nothing is claimed of what the bytes hold: whoever needs to know that
/// reads them back.
#[verifier::external_body]
pub(crate) fn pack(records: &Vec<Record>) -> (bytes: Result<Vec<u8>, rmp_serde::encode::Error>)
    requires
        countable(records_model(records@)),
    ensures
        match bytes {
            Ok(image) => packed(records_model(records@)) == Some(image@),
            Err(_) => packed(records_model(records@)) is None,
        },
{
    rmp_serde::to_vec(records)
}

/// Calls `rmp_serde::from_read` on a slice of bytes, asking for a list of
/// records. The one claim is that the outcome depends on the bytes alone:
/// the same bytes give the same list, or an error, every time.
#[verifier::external_body]
pub(crate) fn unpack(bytes: &[u8]) -> (records: Result<Vec<Record>, rmp_serde::decode::Error>)
    ensures
        match records {
            Ok(list) => unpacked(bytes@) == Some(records_model(list@)),
            Err(_) => unpacked(bytes@) is None,
        },
{
    rmp_serde::from_read(bytes)
}

} // verus!
