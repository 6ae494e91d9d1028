//! The slot table: a map from slot index to content, and its image as the
//! bytes of the store file.

pub use crate::bridge::{get_clipboard, set_clipboard};
pub use crate::content::{ClipContent, ImageData};
use crate::content::{ContentModel, ImageModel};
use crate::error::{ClipmanError, ClipmanErrorModel, IoFailure, IoFailureModel};
use crate::frame::{frame, framed, law_cut_frame_is_no_frame, payload_of, unframe, HEADER};
use crate::wire::{
    countable, is_countable, pack, packed, record_model, records_model, unpack, unpacked, Record,
    RecordModel,
};
use std::collections::HashMap;
use vstd::prelude::*;
use vstd::std_specs::hash::spec_hash_map_iter;
use vstd::std_specs::iter::IteratorSpec;

verus! {

/// A table of numbered slots, each holding one clipboard content.
#[derive(Debug)]
pub struct Clipboard(HashMap<u32, ClipContent>);

impl View for Clipboard {
    type V = Map<u32, ContentModel>;

    closed spec fn view(&self) -> Map<u32, ContentModel> {
        self.0@.map_values(|content: ClipContent| content@)
    }
}

/// The content that a record stands for: text where it holds text alone, an
/// image where it holds an image alone whose dimensions fit this machine, and
/// nothing otherwise.
pub open spec fn record_content(record: RecordModel) -> Option<ContentModel> {
    match (record.1, record.2) {
        (Some(text), None) => Some(ContentModel::Text(text)),
        (None, Some(image)) => if image.0 <= usize::MAX && image.1 <= usize::MAX {
            Some(
                ContentModel::Image(
                    ImageModel { width: image.0 as nat, height: image.1 as nat, data: image.2 },
                ),
            )
        } else {
            None
        },
        _ => None,
    }
}

/// The record that is written for a slot.
pub open spec fn record_for(index: u32, content: ContentModel) -> RecordModel {
    match content {
        ContentModel::Text(text) => (index, Some(text), None),
        ContentModel::Image(image) => (
            index,
            None,
            Some((image.width as u64, image.height as u64, image.data)),
        ),
    }
}

/// The table that a list of records stands for: every record must stand for
/// a content, and no index may come twice.
pub open spec fn table_of(records: Seq<RecordModel>) -> Option<Map<u32, ContentModel>>
    decreases records.len(),
{
    if records.len() == 0 {
        Some(Map::empty())
    } else {
        let last = records.last();
        match (table_of(records.drop_last()), record_content(last)) {
            (Some(table), Some(content)) => if table.contains_key(last.0) {
                None
            } else {
                Some(table.insert(last.0, content))
            },
            _ => None,
        }
    }
}

/// The table that the bytes of a store file stand for, if they stand for
/// one: the bytes must be a frame, its payload a list of records, and the
/// list must stand for a table.
pub open spec fn opened(bytes: Seq<u8>) -> Option<Map<u32, ContentModel>> {
    match payload_of(bytes) {
        Some(payload) => match unpacked(payload) {
            Some(records) => table_of(records),
            None => None,
        },
        None => None,
    }
}

/// The content of a slot of a table, if the slot was ever filled.
pub open spec fn lookup(table: Map<u32, ContentModel>, index: u32) -> Option<ContentModel> {
    if table.contains_key(index) {
        Some(table[index])
    } else {
        None
    }
}

/// The outcome of making the bytes of a store file, as a mathematical value.
pub open spec fn image_model(image: Result<Vec<u8>, ClipmanError>) -> Result<
    Seq<u8>,
    ClipmanErrorModel,
> {
    match image {
        Ok(bytes) => Ok(bytes@),
        Err(error) => Err(error@),
    }
}

/// What becomes of bytes that are meant to be the image of a table: they are
/// handed out where they open to that very table, and refused in every other
/// case.
pub open spec fn confirmed(bytes: Seq<u8>, table: Map<u32, ContentModel>) -> Result<
    Seq<u8>,
    ClipmanErrorModel,
> {
    if opened(bytes) == Some(table) {
        Ok(bytes)
    } else {
        Err(ClipmanErrorModel::Serialization)
    }
}

/// What becomes of the encoder's output for a table: it is put in a frame,
/// and the frame is handed out where it opens to that very table.
pub open spec fn sealed(output: Option<Seq<u8>>, table: Map<u32, ContentModel>) -> Result<
    Seq<u8>,
    ClipmanErrorModel,
> {
    match output {
        Some(payload) => confirmed(framed(payload), table),
        None => Err(ClipmanErrorModel::Serialization),
    }
}

/// Whether `image` is what saving `table` may give. For some list of the
/// table's slots: the sealed output of the encoder, where the encoder can
/// count the list, and a refusal where it cannot.
pub open spec fn saved(
    table: Map<u32, ContentModel>,
    image: Result<Seq<u8>, ClipmanErrorModel>,
) -> bool {
    exists|records: Seq<RecordModel>| #[trigger]
        table_of(records) == Some(table) && image == if countable(records) {
            sealed(packed(records), table)
        } else {
            Err(ClipmanErrorModel::Serialization)
        }
}

/// What reading the store file gave, as a mathematical value.
pub open spec fn read_model(read: Result<Vec<u8>, IoFailure>) -> Result<Seq<u8>, IoFailureModel> {
    match read {
        Ok(bytes) => Ok(bytes@),
        Err(failure) => Err(failure@),
    }
}

/// The outcome of opening the store, as a mathematical value.
pub open spec fn store_model(store: Result<Clipboard, ClipmanError>) -> Result<
    Map<u32, ContentModel>,
    ClipmanErrorModel,
> {
    match store {
        Ok(table) => Ok(table@),
        Err(error) => Err(error@),
    }
}

/// What opening the store gives for each outcome of reading its file: the
/// table that the bytes stand for; an empty table where there is no file yet;
/// and an error where the bytes stand for no table or the file could not be
/// read.
pub open spec fn open_model(read: Result<Seq<u8>, IoFailureModel>) -> Result<
    Map<u32, ContentModel>,
    ClipmanErrorModel,
> {
    match read {
        Ok(bytes) => match opened(bytes) {
            Some(table) => Ok(table),
            None => Err(ClipmanErrorModel::Deserialization),
        },
        Err(IoFailureModel::NotFound) => Ok(Map::empty()),
        Err(failure) => Err(ClipmanErrorModel::Io(failure)),
    }
}

/// A list of records that continues one standing for no table stands for none.
proof fn lemma_no_table_from_prefix(records: Seq<RecordModel>, n: int)
    requires
        0 <= n <= records.len(),
        table_of(records.take(n)) is None,
    ensures
        table_of(records) is None,
    decreases records.len() - n,
{
    if n < records.len() {
        assert(records.take(n + 1).drop_last() =~= records.take(n));
        lemma_no_table_from_prefix(records, n + 1);
    } else {
        assert(records.take(n) =~= records);
    }
}

/// A list that holds the record of each slot of a table once, and nothing
/// else, stands for that table.
proof fn lemma_listing_stands_for_table(records: Seq<RecordModel>, table: Map<u32, ContentModel>)
    requires
        forall|i: int, j: int|
            0 <= i < j < records.len() ==> (#[trigger] records[i]).0 != (#[trigger] records[j]).0,
        forall|i: int|
            0 <= i < records.len() ==> table.contains_key((#[trigger] records[i]).0)
                && record_content(records[i]) == Some(table[records[i].0]),
        forall|k: u32| #[trigger]
            table.contains_key(k) ==> exists|i: int|
                0 <= i < records.len() && (#[trigger] records[i]).0 == k,
    ensures
        table_of(records) == Some(table),
    decreases records.len(),
{
    if records.len() == 0 {
        assert(table =~= Map::empty());
    } else {
        let last = records.last();
        let rest = records.drop_last();
        let smaller = table.remove(last.0);
        assert forall|k: u32| #[trigger] smaller.contains_key(k) implies exists|i: int|
            0 <= i < rest.len() && (#[trigger] rest[i]).0 == k by {
            let i = choose|i: int| 0 <= i < records.len() && (#[trigger] records[i]).0 == k;
            assert(rest[i] == records[i]);
        }
        lemma_listing_stands_for_table(rest, smaller);
        assert(smaller.insert(last.0, table[last.0]) =~= table);
    }
}

/// The record that is written for a slot.
fn record_of(index: u32, content: &ClipContent) -> (record: Record)
    ensures
        record_model(record) == record_for(index, content@),
        record_content(record_model(record)) == Some(content@),
{
    match content {
        ClipContent::Text(text) => (index, Some(text.clone()), None),
        ClipContent::Image(image) => {
            let data = image.data.clone();
            assert(data@ =~= image.data@);
            (index, None, Some((image.width as u64, image.height as u64, data)))
        },
    }
}

/// The slot that a record stands for, if it stands for one.
fn slot_of(record: Record) -> (slot: Option<(u32, ClipContent)>)
    ensures
        match slot {
            Some((index, content)) => index == record.0 && record_content(record_model(record))
                == Some(content@),
            None => record_content(record_model(record)) is None,
        },
{
    let (index, text, image) = record;
    let content = match (text, image) {
        (Some(text), None) => Some(ClipContent::Text(text)),
        (None, Some((width, height, data))) => {
            if width <= usize::MAX as u64 && height <= usize::MAX as u64 {
                Some(
                    ClipContent::Image(
                        ImageData { width: width as usize, height: height as usize, data },
                    ),
                )
            } else {
                None
            }
        },
        _ => None,
    };
    match content {
        Some(content) => Some((index, content)),
        None => None,
    }
}

impl Default for Clipboard {
    /// An empty table.
    fn default() -> (store: Clipboard)
        ensures
            store@ == Map::<u32, ContentModel>::empty(),
    {
        Clipboard::new()
    }
}

impl Clone for Clipboard {
    /// A table with a copy of each slot.
    fn clone(&self) -> (copy: Clipboard)
        ensures
            copy@ == self@,
    {
        broadcast use vstd::std_specs::hash::group_hash_axioms;
        let mut copy = Clipboard::new();
        for pair in it: self.0.iter()
            invariant
                it.seq() == spec_hash_map_iter(&self.0).remaining(),
                forall|k: u32| #[trigger]
                    copy@.contains_key(k) ==> self@.contains_key(k) && copy@[k] == self@[k],
                forall|j: int|
                    0 <= j < it.index() ==> copy@.contains_key(*(#[trigger] it.seq()[j]).0),
        {
            let (index, content) = pair;
            let ghost before = copy@;
            assert(self.0@.contains_key(*index) && self.0@[*index] == *content);
            copy.0.insert(*index, content.clone());
            assert(copy@ =~= before.insert(*index, content@));
        }
        proof {
            let pairs = spec_hash_map_iter(&self.0).remaining();
            assert forall|k: u32| self@.contains_key(k) implies copy@.contains_key(k) by {
                assert(pairs.contains((&k, &self.0@[k])));
                let j = choose|j: int| 0 <= j < pairs.len() && pairs[j] == (&k, &self.0@[k]);
                assert(copy@.contains_key(*pairs[j].0));
            }
            assert(copy@ =~= self@);
        }
        copy
    }
}

impl PartialEq for Clipboard {
    /// Whether two tables hold the same contents in the same slots.
    fn eq(&self, other: &Self) -> (same: bool) {
        broadcast use vstd::std_specs::hash::group_hash_axioms;
        if self.0.len() != other.0.len() {
            assert(self@.dom() =~= self.0@.dom());
            assert(other@.dom() =~= other.0@.dom());
            return false;
        }
        for pair in it: self.0.iter()
            invariant
                it.seq() == spec_hash_map_iter(&self.0).remaining(),
                forall|j: int|
                    0 <= j < it.index() ==> other@.contains_key(*(#[trigger] it.seq()[j]).0)
                        && other@[*it.seq()[j].0] == (*it.seq()[j].1)@,
        {
            let (index, content) = pair;
            match other.0.get(index) {
                Some(theirs) => {
                    if !(*content == *theirs) {
                        assert(self@[*index] != other@[*index]);
                        return false;
                    }
                },
                None => {
                    assert(self@.contains_key(*index));
                    return false;
                },
            }
        }
        proof {
            let pairs = spec_hash_map_iter(&self.0).remaining();
            assert(self@.dom() =~= self.0@.dom());
            assert(other@.dom() =~= other.0@.dom());
            assert forall|k: u32| self@.contains_key(k) implies other@.contains_key(k) && other@[k]
                == self@[k] by {
                assert(pairs.contains((&k, &self.0@[k])));
                let j = choose|j: int| 0 <= j < pairs.len() && pairs[j] == (&k, &self.0@[k]);
                assert(other@.contains_key(*pairs[j].0));
            }
            assert(self@.dom().subset_of(other@.dom()));
            vstd::set_lib::lemma_subset_equality(self@.dom(), other@.dom());
            assert(self@ =~= other@);
        }
        true
    }
}

impl vstd::std_specs::cmp::PartialEqSpecImpl for Clipboard {
    open spec fn obeys_eq_spec() -> bool {
        true
    }

    open spec fn eq_spec(&self, other: &Self) -> bool {
        self@ == other@
    }
}

/// `From<T> for T` of std: converting a value to its own type gives the value
/// back unchanged.
pub assume_specification<T>[ <T as From<T>>::from ](value: T) -> (same: T)
    ensures
        same == value,
;

impl Clipboard {
    /// An empty table.
    pub fn new() -> (store: Clipboard)
        ensures
            store@ == Map::<u32, ContentModel>::empty(),
    {
        let store = Clipboard(HashMap::new());
        assert(store@ =~= Map::<u32, ContentModel>::empty());
        store
    }

    /// Puts `data` in slot `index`, in place of what the slot held.
    pub fn insert<D>(&mut self, index: u32, data: D)
        where D: Into<ClipContent>
        ensures
            exists|content: ClipContent| #[trigger]
                call_ensures(<D as Into<ClipContent>>::into, (data,), content) && final(self)@
                    == old(self)@.insert(index, content@),
    {
        broadcast use vstd::std_specs::hash::group_hash_axioms;
        let content: ClipContent = data.into();
        let ghost model = content@;
        assert(call_ensures(<D as Into<ClipContent>>::into, (data,), content));
        self.0.insert(index, content);
        assert(self@ =~= old(self)@.insert(index, model));
    }

    /// The table that a list of records stands for, if it stands for one:
    /// every record has to hold text alone or an image alone, and no index
    /// may come twice.
    pub fn from_records(records: Vec<Record>) -> (table: Option<Clipboard>)
        ensures
            match table {
                Some(store) => table_of(records_model(records@)) == Some(store@),
                None => table_of(records_model(records@)) is None,
            },
    {
        broadcast use vstd::std_specs::hash::group_hash_axioms;
        let ghost models = records_model(records@);
        let mut store = Clipboard::new();
        for record in it: records
            invariant
                models == records_model(it.seq()),
                table_of(models.take(it.index())) == Some(store@),
        {
            let ghost n = it.index();
            proof {
                assert(models.take(n + 1).drop_last() =~= models.take(n));
                assert(models.take(n + 1).last() == record_model(record));
            }
            match slot_of(record) {
                Some((index, content)) => {
                    if store.0.contains_key(&index) {
                        proof {
                            lemma_no_table_from_prefix(models, n + 1);
                        }
                        return None;
                    }
                    let ghost before = store@;
                    store.0.insert(index, content);
                    assert(store@ =~= before.insert(index, content@));
                },
                None => {
                    proof {
                        lemma_no_table_from_prefix(models, n + 1);
                    }
                    return None;
                },
            }
        }
        assert(models.take(models.len() as int) =~= models);
        Some(store)
    }

    /// The slots of the table as a list of records, each slot once, in no
    /// order in particular.
    pub fn records(&self) -> (list: Vec<Record>)
        ensures
            table_of(records_model(list@)) == Some(self@),
    {
        broadcast use vstd::std_specs::hash::group_hash_axioms;
        let mut list: Vec<Record> = Vec::new();
        for pair in it: self.0.iter()
            invariant
                it.seq() == spec_hash_map_iter(&self.0).remaining(),
                list@.len() == it.index(),
                forall|j: int|
                    0 <= j < it.index() ==> record_model(#[trigger] list@[j]) == record_for(
                        *it.seq()[j].0,
                        (*it.seq()[j].1)@,
                    ) && record_content(record_model(list@[j])) == Some((*it.seq()[j].1)@),
        {
            let (index, content) = pair;
            list.push(record_of(*index, content));
        }
        proof {
            let pairs = spec_hash_map_iter(&self.0).remaining();
            let models = records_model(list@);
            assert(self@.dom() =~= self.0@.dom());
            assert(pairs.no_duplicates());
            assert forall|i: int, j: int| 0 <= i < j < models.len() implies (#[trigger] models[i]).0
                != (#[trigger] models[j]).0 by {
                if pairs[i].0 == pairs[j].0 {
                    assert(self.0@[*pairs[i].0] == *pairs[i].1);
                    assert(self.0@[*pairs[j].0] == *pairs[j].1);
                    assert(pairs[i] == pairs[j]);
                }
            }
            assert forall|k: u32| #[trigger] self@.contains_key(k) implies exists|i: int|
                0 <= i < models.len() && (#[trigger] models[i]).0 == k by {
                assert(pairs.contains((&k, &self.0@[k])));
                let i = choose|i: int| 0 <= i < pairs.len() && pairs[i] == (&k, &self.0@[k]);
                assert(models[i].0 == k);
            }
            lemma_listing_stands_for_table(models, self@);
        }
        list
    }

    /// Opens the store from what reading its file gave. A missing file is a
    /// store that was never saved: it opens empty. Bytes that are not the
    /// image of a slot table are refused, whole.
    pub fn open(read: Result<Vec<u8>, IoFailure>) -> (store: Result<Clipboard, ClipmanError>)
        ensures
            store_model(store) == open_model(read_model(read)),
    {
        match read {
            Ok(bytes) => match Clipboard::read(bytes.as_slice()) {
                Some(table) => Ok(table),
                None => Err(ClipmanError::Deserialization),
            },
            Err(IoFailure::NotFound) => Ok(Clipboard::new()),
            Err(failure) => Err(ClipmanError::Io(failure)),
        }
    }

    /// The table that `bytes` stand for, if they stand for one.
    fn read(bytes: &[u8]) -> (table: Option<Clipboard>)
        ensures
            match table {
                Some(store) => opened(bytes@) == Some(store@),
                None => opened(bytes@) is None,
            },
    {
        match unframe(bytes) {
            Some(payload) => match unpack(payload) {
                Ok(records) => Clipboard::from_records(records),
                Err(_) => None,
            },
            None => None,
        }
    }

    /// Hands `bytes` on where they are the image of this table, and refuses
    /// them where they open to another table or to none.
    pub fn confirm(&self, bytes: Vec<u8>) -> (checked: Result<Vec<u8>, ClipmanError>)
        ensures
            image_model(checked) == confirmed(bytes@, self@),
    {
        match Clipboard::read(bytes.as_slice()) {
            Some(table) => {
                if table == *self {
                    Ok(bytes)
                } else {
                    Err(ClipmanError::Serialization)
                }
            },
            None => Err(ClipmanError::Serialization),
        }
    }

    /// The image of the table as bytes, for the store file. A table with
    /// more slots, or an image with more pixel bytes, than the encoder can
    /// count is refused before the encoder is called. The encoder's output
    /// is put in a frame and read back before it is handed out, so that bytes
    /// which came from here always open to this very table; a table that the
    /// encoder cannot write so is refused.
    pub fn save(&self) -> (image: Result<Vec<u8>, ClipmanError>)
        ensures
            saved(self@, image_model(image)),
            match image {
                Ok(bytes) => opened(bytes@) == Some(self@),
                Err(error) => error@ == ClipmanErrorModel::Serialization,
            },
    {
        let list = self.records();
        let ghost records = records_model(list@);
        let image = if is_countable(&list) {
            match pack(&list) {
                Ok(payload) => self.confirm(frame(payload)),
                Err(_) => Err(ClipmanError::Serialization),
            }
        } else {
            Err(ClipmanError::Serialization)
        };
        assert(table_of(records) == Some(self@) && image_model(image) == if countable(records) {
            sealed(packed(records), self@)
        } else {
            Err(ClipmanErrorModel::Serialization)
        });
        image
    }

    /// The content of slot `index`, if the slot was ever filled.
    pub fn get(&self, index: u32) -> (found: Option<&ClipContent>)
        ensures
            match found {
                Some(content) => lookup(self@, index) == Some(content@),
                None => lookup(self@, index) is None,
            },
    {
        broadcast use vstd::std_specs::hash::group_hash_axioms;
        self.0.get(&index)
    }
}

/// The table that a run of inserts makes of an empty table.
pub open spec fn filled(inserts: Seq<(u32, ContentModel)>) -> Map<u32, ContentModel>
    decreases inserts.len(),
{
    if inserts.len() == 0 {
        Map::empty()
    } else {
        filled(inserts.drop_last()).insert(inserts.last().0, inserts.last().1)
    }
}

/// The content of the last insert at `index` in a run of inserts, if there
/// is an insert at `index` in it.
pub open spec fn last_at(inserts: Seq<(u32, ContentModel)>, index: u32) -> Option<ContentModel>
    decreases inserts.len(),
{
    if inserts.len() == 0 {
        None
    } else if inserts.last().0 == index {
        Some(inserts.last().1)
    } else {
        last_at(inserts.drop_last(), index)
    }
}

/// An empty store holds nothing, at any index.
pub proof fn law_empty_store_holds_nothing(index: u32)
    ensures
        lookup(Map::<u32, ContentModel>::empty(), index) is None,
{
}

/// After two inserts at one index the slot holds the second content, the
/// first has left no trace, and every other slot is as it was.
pub proof fn law_second_insert_wins(
    table: Map<u32, ContentModel>,
    index: u32,
    first: ContentModel,
    second: ContentModel,
)
    ensures
        lookup(table.insert(index, first).insert(index, second), index) == Some(second),
        table.insert(index, first).insert(index, second) == table.insert(index, second),
        forall|other: u32|
            other != index ==> lookup(
                #[trigger] table.insert(index, first).insert(index, second),
                other,
            ) == lookup(table, other),
{
    assert(table.insert(index, first).insert(index, second) =~= table.insert(index, second));
}

/// After a run of inserts into an empty store, a slot holds what the last
/// insert at its index put there, and a slot at whose index nothing was
/// inserted holds nothing.
pub proof fn law_last_insert_wins(inserts: Seq<(u32, ContentModel)>, index: u32)
    ensures
        lookup(filled(inserts), index) == last_at(inserts, index),
        last_at(inserts, index) is Some <==> exists|i: int|
            0 <= i < inserts.len() && (#[trigger] inserts[i]).0 == index,
    decreases inserts.len(),
{
    if inserts.len() > 0 {
        let rest = inserts.drop_last();
        law_last_insert_wins(rest, index);
        if inserts.last().0 == index {
            assert(inserts[inserts.len() - 1].0 == index);
        } else if last_at(rest, index) is Some {
            let i = choose|i: int| 0 <= i < rest.len() && (#[trigger] rest[i]).0 == index;
            assert(inserts[i].0 == index);
        } else {
            assert forall|i: int| 0 <= i < inserts.len() implies (#[trigger] inserts[i]).0
                != index by {
                if i < rest.len() {
                    assert(rest[i] == inserts[i]);
                }
            }
        }
    }
}

/// The bytes that saving a store gave open to a store that answers every
/// lookup as the saved one does: with the content inserted last at an index,
/// and with nothing at an index where nothing was inserted.
pub proof fn law_saved_bytes_open_to_the_store(inserts: Seq<(u32, ContentModel)>, bytes: Seq<u8>)
    requires
        saved(filled(inserts), Ok(bytes)),
    ensures
        open_model(Ok(bytes)) == Ok::<_, ClipmanErrorModel>(filled(inserts)),
        forall|index: u32|
            lookup(open_model(Ok(bytes))->Ok_0, index) == #[trigger] last_at(inserts, index),
{
    assert forall|index: u32|
        lookup(open_model(Ok(bytes))->Ok_0, index) == #[trigger] last_at(inserts, index) by {
        law_last_insert_wins(inserts, index);
    }
}

/// A saved image that was cut short, anywhere, is refused as such: it opens
/// neither to the slots that came before the cut nor to an empty store.
pub proof fn law_cut_image_is_refused(table: Map<u32, ContentModel>, bytes: Seq<u8>, kept: int)
    requires
        saved(table, Ok(bytes)),
        0 <= kept < bytes.len(),
    ensures
        open_model(Ok(bytes.take(kept))) == Err::<Map<u32, ContentModel>, _>(
            ClipmanErrorModel::Deserialization,
        ),
{
    law_cut_frame_is_no_frame(bytes, kept);
}

/// A file too short to hold the header of a frame, the empty file among
/// them, is refused whatever its bytes are.
pub proof fn law_short_file_is_refused(bytes: Seq<u8>)
    requires
        bytes.len() < HEADER,
    ensures
        open_model(Ok(bytes)) == Err::<Map<u32, ContentModel>, _>(
            ClipmanErrorModel::Deserialization,
        ),
{
}

/// A missing store file opens as a store that holds nothing.
pub proof fn law_missing_file_opens_empty(index: u32)
    ensures
        open_model(Err(IoFailureModel::NotFound)) matches Ok(table) && lookup(table, index)
            is None,
{
}

/// Bytes that stand for no table are refused as such: they open to no store,
/// empty or other.
pub proof fn law_foreign_bytes_are_refused(bytes: Seq<u8>)
    requires
        opened(bytes) is None,
    ensures
        open_model(Ok(bytes)) == Err::<Map<u32, ContentModel>, _>(
            ClipmanErrorModel::Deserialization,
        ),
{
}

} // verus!
