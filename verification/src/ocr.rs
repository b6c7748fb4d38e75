//! The AI backend's answers, read as values of the workflow.

use vstd::prelude::*;
use crate::entities::{AsyncJobHandle, AsyncJobHandleView};
use crate::pb::{ExtraField, FaceMatchJobHandle, KtpOcrResult, LivenessJobHandle};
use crate::text::{blank, is_blank, str_eq};

verus! {

/// The map that results from setting the fields of `entries` one after the
/// other: where a key occurs more than once, its last value stands.
pub open spec fn map_of(entries: Seq<ExtraField>) -> Map<Seq<char>, Seq<char>>
    decreases entries.len(),
{
    if entries.len() == 0 {
        Map::empty()
    } else {
        map_of(entries.drop_last()).insert(entries.last().key@, entries.last().value@)
    }
}

/// No key occurs twice in `entries`.
pub open spec fn distinct_keys(entries: Seq<ExtraField>) -> bool {
    forall|i: int, j: int|
        0 <= i < j < entries.len() ==> (#[trigger] entries[i]).key@ != (#[trigger] entries[j]).key@
}

/// A key that no entry has is not in the map.
proof fn lemma_absent_key(entries: Seq<ExtraField>, key: Seq<char>)
    requires
        forall|i: int| 0 <= i < entries.len() ==> (#[trigger] entries[i]).key@ != key,
    ensures
        !map_of(entries).contains_key(key),
    decreases entries.len(),
{
    if entries.len() > 0 {
        lemma_absent_key(entries.drop_last(), key);
    }
}

/// With distinct keys, the map holds each entry's value under its key.
proof fn lemma_entry_is_in_map(entries: Seq<ExtraField>, i: int)
    requires
        distinct_keys(entries),
        0 <= i < entries.len(),
    ensures
        map_of(entries).contains_key(entries[i].key@),
        map_of(entries)[entries[i].key@] == entries[i].value@,
    decreases entries.len(),
{
    if i < entries.len() - 1 {
        lemma_entry_is_in_map(entries.drop_last(), i);
    }
}

/// With distinct keys, giving an entry a new value sets that key in the
/// map and nothing else.
proof fn lemma_replaced_entry(entries: Seq<ExtraField>, i: int, field: ExtraField)
    requires
        distinct_keys(entries),
        0 <= i < entries.len(),
        entries[i].key@ == field.key@,
    ensures
        map_of(entries.update(i, field)) == map_of(entries).insert(field.key@, field.value@),
        distinct_keys(entries.update(i, field)),
    decreases entries.len(),
{
    let after = entries.update(i, field);
    if i == entries.len() - 1 {
        assert(after.drop_last() =~= entries.drop_last());
        assert(map_of(after) =~= map_of(entries).insert(field.key@, field.value@));
    } else {
        lemma_replaced_entry(entries.drop_last(), i, field);
        assert(after.drop_last() =~= entries.drop_last().update(i, field));
        assert(entries.last().key@ != entries[i].key@);
        assert(map_of(after) =~= map_of(entries).insert(field.key@, field.value@));
    }
}

/// Recognised fields that have no slot of their own, by name. No name
/// occurs twice.
#[derive(Debug)]
pub struct ExtraFields {
    entries: Vec<ExtraField>,
}

impl View for ExtraFields {
    type V = Map<Seq<char>, Seq<char>>;

    closed spec fn view(&self) -> Map<Seq<char>, Seq<char>> {
        map_of(self.entries@)
    }
}

impl ExtraFields {
    /// The invariant of the type: no name occurs twice.
    pub closed spec fn wf(&self) -> bool {
        distinct_keys(self.entries@)
    }

    /// No fields.
    pub fn new() -> (fields: Self)
        ensures
            fields.wf(),
            fields@ == Map::<Seq<char>, Seq<char>>::empty(),
    {
        ExtraFields { entries: Vec::new() }
    }

    /// The position of the entry for `key`, if there is one.
    fn position(&self, key: &str) -> (at: Option<usize>)
        ensures
            match at {
                Some(i) => i < self.entries@.len() && self.entries@[i as int].key@ == key@,
                None => forall|i: int|
                    0 <= i < self.entries@.len() ==> (#[trigger] self.entries@[i]).key@ != key@,
            },
    {
        let mut i: usize = 0;
        while i < self.entries.len()
            invariant
                i <= self.entries.len(),
                forall|j: int| 0 <= j < i ==> (#[trigger] self.entries@[j]).key@ != key@,
            decreases self.entries.len() - i,
        {
            if str_eq(self.entries[i].key.as_str(), key) {
                return Some(i);
            }
            i = i + 1;
        }
        None
    }

    /// Sets the value of `key`, in place of the one it had if it had one.
    pub fn insert(&mut self, key: String, value: String)
        requires
            old(self).wf(),
        ensures
            final(self).wf(),
            final(self)@ == old(self)@.insert(key@, value@),
    {
        let at = self.position(key.as_str());
        let field = ExtraField { key, value };
        match at {
            Some(i) => {
                proof {
                    lemma_replaced_entry(self.entries@, i as int, field);
                }
                self.entries.set(i, field);
            },
            None => {
                proof {
                    assert(self.entries@.push(field).drop_last() =~= self.entries@);
                }
                self.entries.push(field);
            },
        }
    }

    /// The value of `key`, if it has one.
    pub fn get(&self, key: &str) -> (value: Option<&String>)
        requires
            self.wf(),
        ensures
            match value {
                Some(v) => self@.contains_key(key@) && self@[key@] == v@,
                None => !self@.contains_key(key@),
            },
    {
        match self.position(key) {
            Some(i) => {
                proof {
                    lemma_entry_is_in_map(self.entries@, i as int);
                }
                Some(&self.entries[i].value)
            },
            None => {
                proof {
                    lemma_absent_key(self.entries@, key@);
                }
                None
            },
        }
    }

    /// The fields, one entry for each name.
    pub fn entries(&self) -> (entries: &Vec<ExtraField>)
        ensures
            map_of(entries@) == self@,
            self.wf() ==> distinct_keys(entries@),
    {
        &self.entries
    }
}

/// What the OCR of an identity card found. A field that was not found, or
/// that was found blank, is absent: it is never the empty string.
#[derive(Debug)]
pub struct KtpOcrResultData {
    pub nik: Option<String>,
    pub name: Option<String>,
    pub birth_place: Option<String>,
    pub birth_date: Option<String>,
    pub gender: Option<String>,
    pub blood_type: Option<String>,
    pub address: Option<String>,
    pub rt_rw: Option<String>,
    pub village: Option<String>,
    pub sub_district: Option<String>,
    pub religion: Option<String>,
    pub marital_status: Option<String>,
    pub occupation: Option<String>,
    pub citizenship: Option<String>,
    pub issue_date: Option<String>,
    pub raw_text: String,
    pub extra_fields: ExtraFields,
}

/// Mathematical model of a [`KtpOcrResultData`].
pub struct KtpOcrResultDataView {
    pub nik: Option<Seq<char>>,
    pub name: Option<Seq<char>>,
    pub birth_place: Option<Seq<char>>,
    pub birth_date: Option<Seq<char>>,
    pub gender: Option<Seq<char>>,
    pub blood_type: Option<Seq<char>>,
    pub address: Option<Seq<char>>,
    pub rt_rw: Option<Seq<char>>,
    pub village: Option<Seq<char>>,
    pub sub_district: Option<Seq<char>>,
    pub religion: Option<Seq<char>>,
    pub marital_status: Option<Seq<char>>,
    pub occupation: Option<Seq<char>>,
    pub citizenship: Option<Seq<char>>,
    pub issue_date: Option<Seq<char>>,
    pub raw_text: Seq<char>,
    pub extra_fields: Map<Seq<char>, Seq<char>>,
}

impl DeepView for KtpOcrResultData {
    type V = KtpOcrResultDataView;

    open spec fn deep_view(&self) -> KtpOcrResultDataView {
        KtpOcrResultDataView {
            nik: self.nik.deep_view(),
            name: self.name.deep_view(),
            birth_place: self.birth_place.deep_view(),
            birth_date: self.birth_date.deep_view(),
            gender: self.gender.deep_view(),
            blood_type: self.blood_type.deep_view(),
            address: self.address.deep_view(),
            rt_rw: self.rt_rw.deep_view(),
            village: self.village.deep_view(),
            sub_district: self.sub_district.deep_view(),
            religion: self.religion.deep_view(),
            marital_status: self.marital_status.deep_view(),
            occupation: self.occupation.deep_view(),
            citizenship: self.citizenship.deep_view(),
            issue_date: self.issue_date.deep_view(),
            raw_text: self.raw_text@,
            extra_fields: self.extra_fields@,
        }
    }
}

/// The result in which nothing was found.
pub open spec fn nothing_found() -> KtpOcrResultDataView {
    KtpOcrResultDataView {
        nik: None,
        name: None,
        birth_place: None,
        birth_date: None,
        gender: None,
        blood_type: None,
        address: None,
        rt_rw: None,
        village: None,
        sub_district: None,
        religion: None,
        marital_status: None,
        occupation: None,
        citizenship: None,
        issue_date: None,
        raw_text: Seq::empty(),
        extra_fields: Map::empty(),
    }
}

impl Default for KtpOcrResultData {
    fn default() -> (data: Self)
        ensures
            data.deep_view() == nothing_found(),
            data.extra_fields.wf(),
    {
        KtpOcrResultData {
            nik: None,
            name: None,
            birth_place: None,
            birth_date: None,
            gender: None,
            blood_type: None,
            address: None,
            rt_rw: None,
            village: None,
            sub_district: None,
            religion: None,
            marital_status: None,
            occupation: None,
            citizenship: None,
            issue_date: None,
            raw_text: String::new(),
            extra_fields: ExtraFields::new(),
        }
    }
}

/// A field as the workflow sees it: absent where the text is blank, the
/// text as it is otherwise.
pub open spec fn present(value: Seq<char>) -> Option<Seq<char>> {
    if blank(value) {
        None
    } else {
        Some(value)
    }
}

/// The workflow's reading of an OCR answer. An answer without a result
/// reads as nothing found.
pub open spec fn ocr_data(result: Option<KtpOcrResult>) -> KtpOcrResultDataView {
    match result {
        Some(found) => KtpOcrResultDataView {
            nik: present(found.nik@),
            name: present(found.name@),
            birth_place: present(found.birth_place@),
            birth_date: present(found.birth_date@),
            gender: present(found.gender@),
            blood_type: present(found.blood_type@),
            address: present(found.address@),
            rt_rw: present(found.rt_rw@),
            village: present(found.village@),
            sub_district: present(found.sub_district@),
            religion: present(found.religion@),
            marital_status: present(found.marital_status@),
            occupation: present(found.occupation@),
            citizenship: present(found.citizenship@),
            issue_date: present(found.issue_date@),
            raw_text: found.raw_text@,
            extra_fields: map_of(found.extra_fields@),
        },
        None => nothing_found(),
    }
}

/// A field that is absent or holds more than white space: what every field
/// of a reading is.
pub open spec fn settled(field: Option<Seq<char>>) -> bool {
    match field {
        Some(value) => !blank(value),
        None => true,
    }
}

/// A field as it stands on the wire: the empty text where it is absent.
pub open spec fn on_the_wire(field: Option<Seq<char>>) -> Seq<char> {
    match field {
        Some(value) => value,
        None => Seq::empty(),
    }
}

/// Reading a field never gives a blank text, and so never the empty one.
pub proof fn lemma_reading_is_settled(value: Seq<char>)
    ensures
        settled(present(value)),
        present(value) != Some(Seq::<char>::empty()),
{
}

/// A field survives the wire: written out and read back it is what it
/// was, and a blank text written out is read back as absent.
pub proof fn lemma_field_round_trip(field: Option<Seq<char>>)
    ensures
        settled(field) ==> present(on_the_wire(field)) == field,
        !settled(field) ==> present(on_the_wire(field)) is None,
{
}

/// No field of a reading is blank.
pub open spec fn all_settled(data: KtpOcrResultDataView) -> bool {
    &&& settled(data.nik)
    &&& settled(data.name)
    &&& settled(data.birth_place)
    &&& settled(data.birth_date)
    &&& settled(data.gender)
    &&& settled(data.blood_type)
    &&& settled(data.address)
    &&& settled(data.rt_rw)
    &&& settled(data.village)
    &&& settled(data.sub_district)
    &&& settled(data.religion)
    &&& settled(data.marital_status)
    &&& settled(data.occupation)
    &&& settled(data.citizenship)
    &&& settled(data.issue_date)
}

/// Whatever the answer holds, its reading has no blank field.
pub proof fn lemma_reading_has_no_blank_field(result: Option<KtpOcrResult>)
    ensures
        all_settled(ocr_data(result)),
{
}

/// Makes a blank text absent.
pub fn empty_to_none(value: String) -> (field: Option<String>)
    ensures
        field.deep_view() == present(value@),
{
    if is_blank(value.as_str()) {
        None
    } else {
        Some(value)
    }
}

/// Gathers the extra fields of an answer by name.
fn collect_extra_fields(fields: Vec<ExtraField>) -> (extra: ExtraFields)
    ensures
        extra.wf(),
        extra@ == map_of(fields@),
{
    let ghost all = fields@;
    let mut extra = ExtraFields::new();
    for field in it: fields
        invariant
            it.seq() == all,
            extra.wf(),
            extra@ == map_of(all.subrange(0, it.index() as int)),
    {
        proof {
            let i = it.index() as int;
            assert(all.subrange(0, i + 1).drop_last() =~= all.subrange(0, i));
            assert(all.subrange(0, i + 1).last() == field);
        }
        extra.insert(field.key, field.value);
    }
    assert(all.subrange(0, all.len() as int) =~= all);
    extra
}

/// Reads an OCR answer. Every field that is blank after decoding becomes
/// absent, every other field is kept as it is, and the extra fields are
/// gathered by name, the last value standing where a name is repeated.
pub fn from_proto_result(result: Option<KtpOcrResult>) -> (data: KtpOcrResultData)
    ensures
        data.deep_view() == ocr_data(result),
        data.extra_fields.wf(),
{
    match result {
        Some(found) => KtpOcrResultData {
            nik: empty_to_none(found.nik),
            name: empty_to_none(found.name),
            birth_place: empty_to_none(found.birth_place),
            birth_date: empty_to_none(found.birth_date),
            gender: empty_to_none(found.gender),
            blood_type: empty_to_none(found.blood_type),
            address: empty_to_none(found.address),
            rt_rw: empty_to_none(found.rt_rw),
            village: empty_to_none(found.village),
            sub_district: empty_to_none(found.sub_district),
            religion: empty_to_none(found.religion),
            marital_status: empty_to_none(found.marital_status),
            occupation: empty_to_none(found.occupation),
            citizenship: empty_to_none(found.citizenship),
            issue_date: empty_to_none(found.issue_date),
            raw_text: found.raw_text,
            extra_fields: collect_extra_fields(found.extra_fields),
        },
        None => KtpOcrResultData::default(),
    }
}

/// Reads the handle out of the answer to a face-match request.
pub fn map_job_handle(handle: Option<FaceMatchJobHandle>) -> (job: AsyncJobHandle)
    ensures
        job.deep_view() == match handle {
            Some(h) => AsyncJobHandleView { job_id: h.job_id@, queue: h.queue@ },
            None => AsyncJobHandleView { job_id: Seq::empty(), queue: Seq::empty() },
        },
{
    match handle {
        Some(h) => AsyncJobHandle { job_id: h.job_id, queue: h.queue },
        None => AsyncJobHandle { job_id: String::new(), queue: String::new() },
    }
}

/// Reads the handle out of the answer to a liveness request.
pub fn map_liveness_handle(handle: Option<LivenessJobHandle>) -> (job: AsyncJobHandle)
    ensures
        job.deep_view() == match handle {
            Some(h) => AsyncJobHandleView { job_id: h.job_id@, queue: h.queue@ },
            None => AsyncJobHandleView { job_id: Seq::empty(), queue: Seq::empty() },
        },
{
    match handle {
        Some(h) => AsyncJobHandle { job_id: h.job_id, queue: h.queue },
        None => AsyncJobHandle { job_id: String::new(), queue: String::new() },
    }
}

} // verus!
