use itertools::Itertools;
use vstd::multiset::Multiset;
use vstd::prelude::*;

use crate::error::PreviewError;

verus! {

/// Directory tag that marks a compressed JPEG preview.
pub const JPEG_TAG: u32 = 4;

/// How many of the smallest previews are passed over when enough are present.
pub const DEFAULT_SKIP: usize = 1;

/// Encoding of an embedded preview, decoded once from the directory's tag.
#[derive(Clone, Copy, Debug, PartialEq, Eq, Structural)]
pub enum ThumbFormat {
    Jpeg,
    /// Any other encoding, with the tag it was read from.
    Other(u32),
}

pub open spec fn format_of_tag(tag: u32) -> ThumbFormat {
    if tag == JPEG_TAG {
        ThumbFormat::Jpeg
    } else {
        ThumbFormat::Other(tag)
    }
}

impl ThumbFormat {
    pub fn from_tag(tag: u32) -> (r: ThumbFormat)
        ensures
            r == format_of_tag(tag),
    {
        if tag == JPEG_TAG {
            ThumbFormat::Jpeg
        } else {
            ThumbFormat::Other(tag)
        }
    }
}

/// One entry of a RAW file's thumbnail directory.
#[derive(Clone, Copy, Debug, PartialEq, Eq, Structural)]
pub struct ThumbnailRecord {
    pub format: ThumbFormat,
    /// Byte offset of the encoded data from the start of the file.
    pub offset: u64,
    /// Byte count of the encoded data.
    pub length: u32,
}

impl ThumbnailRecord {
    pub fn from_entry(tag: u32, offset: u64, length: u32) -> (r: ThumbnailRecord)
        ensures
            r == (ThumbnailRecord { format: format_of_tag(tag), offset, length }),
    {
        ThumbnailRecord { format: ThumbFormat::from_tag(tag), offset, length }
    }
}

pub open spec fn is_jpeg(t: ThumbnailRecord) -> bool {
    t.format == ThumbFormat::Jpeg
}

/// The JPEG records of `s`, in their directory order.
pub open spec fn jpeg_only(s: Seq<ThumbnailRecord>) -> Seq<ThumbnailRecord>
    decreases s.len(),
{
    if s.len() == 0 {
        Seq::empty()
    } else {
        let rest = jpeg_only(s.drop_last());
        if is_jpeg(s.last()) {
            rest.push(s.last())
        } else {
            rest
        }
    }
}

/// `s` with `t` placed after every leading record no longer than it.
pub open spec fn insert_by_length(t: ThumbnailRecord, s: Seq<ThumbnailRecord>) -> Seq<
    ThumbnailRecord,
>
    decreases s.len(),
{
    if s.len() == 0 {
        seq![t]
    } else if t.length < s[0].length {
        seq![t] + s
    } else {
        seq![s[0]] + insert_by_length(t, s.drop_first())
    }
}

/// The stable arrangement of `s` by ascending length: records of equal
/// length keep their relative order.
pub open spec fn sorted_by_length(s: Seq<ThumbnailRecord>) -> Seq<ThumbnailRecord>
    decreases s.len(),
{
    if s.len() == 0 {
        Seq::empty()
    } else {
        insert_by_length(s.last(), sorted_by_length(s.drop_last()))
    }
}

pub open spec fn ascending_by_length(s: Seq<ThumbnailRecord>) -> bool {
    forall|i: int, j: int| 0 <= i <= j < s.len() ==> #[trigger] s[i].length <= #[trigger] s[j].length
}

/// The selection policy on a list already sorted by length: the record at
/// index `skip` when more than `skip + 1` are present, else the last one.
pub open spec fn choice(s: Seq<ThumbnailRecord>, skip: int) -> Option<ThumbnailRecord> {
    if s.len() > skip + 1 {
        Some(s[skip])
    } else if s.len() > 0 {
        Some(s.last())
    } else {
        None
    }
}

/// The record chosen from a whole directory.
pub open spec fn selected(records: Seq<ThumbnailRecord>, skip: int) -> Option<ThumbnailRecord> {
    choice(sorted_by_length(jpeg_only(records)), skip)
}

/// Keeps the JPEG records, in directory order.
pub fn jpeg_records(records: &Vec<ThumbnailRecord>) -> (r: Vec<ThumbnailRecord>)
    ensures
        r@ == jpeg_only(records@),
{
    let mut out: Vec<ThumbnailRecord> = Vec::new();
    let mut i: usize = 0;
    while i < records.len()
        invariant
            i <= records@.len(),
            out@ == jpeg_only(records@.subrange(0, i as int)),
        decreases records@.len() - i,
    {
        let t = records[i];
        proof {
            let next = records@.subrange(0, i + 1);
            assert(next.drop_last() =~= records@.subrange(0, i as int));
            assert(next.last() == t);
        }
        if t.format == ThumbFormat::Jpeg {
            out.push(t);
        }
        i = i + 1;
    }
    assert(records@.subrange(0, records@.len() as int) =~= records@);
    out
}

/// Relies on itertools::Itertools::sorted_by_key, which collects the items
/// and orders them with std's stable `sort_by_key`, here keyed by length.
#[verifier::external_body]
fn sort_by_length(v: Vec<ThumbnailRecord>) -> (r: Vec<ThumbnailRecord>)
    ensures
        r@ == sorted_by_length(v@),
{
    v.into_iter().sorted_by_key(|t| t.length).collect()
}

/// Applies the selection policy to records sorted by ascending length.
pub fn pick_from_sorted(sorted: &Vec<ThumbnailRecord>, skip: usize) -> (r: Option<ThumbnailRecord>)
    ensures
        r == choice(sorted@, skip as int),
{
    let n = sorted.len();
    if skip < n && n - skip > 1 {
        Some(sorted[skip])
    } else if n > 0 {
        Some(sorted[n - 1])
    } else {
        None
    }
}

/// Chooses the preview to show: among the JPEG records sorted by length,
/// the one at index `skip` when more than `skip + 1` exist, else the largest.
pub fn select_thumbnail_with_skip(records: &Vec<ThumbnailRecord>, skip: usize) -> (r: Result<
    ThumbnailRecord,
    PreviewError,
>)
    ensures
        match r {
            Ok(t) => selected(records@, skip as int) == Some(t),
            Err(e) => selected(records@, skip as int) is None && e == PreviewError::NoThumbnailFound,
        },
{
    let jpegs = jpeg_records(records);
    let sorted = sort_by_length(jpegs);
    match pick_from_sorted(&sorted, skip) {
        Some(t) => Ok(t),
        None => Err(PreviewError::NoThumbnailFound),
    }
}

/// `select_thumbnail_with_skip` with the default skip of one.
pub fn select_thumbnail(records: &Vec<ThumbnailRecord>) -> (r: Result<ThumbnailRecord, PreviewError>)
    ensures
        match r {
            Ok(t) => selected(records@, DEFAULT_SKIP as int) == Some(t),
            Err(e) => selected(records@, DEFAULT_SKIP as int) is None && e
                == PreviewError::NoThumbnailFound,
        },
{
    select_thumbnail_with_skip(records, DEFAULT_SKIP)
}

proof fn lemma_insert_by_length(t: ThumbnailRecord, s: Seq<ThumbnailRecord>)
    requires
        ascending_by_length(s),
    ensures
        ascending_by_length(insert_by_length(t, s)),
        insert_by_length(t, s).to_multiset() == s.to_multiset().insert(t),
    decreases s.len(),
{
    broadcast use vstd::seq_lib::group_to_multiset_ensures;

    let r = insert_by_length(t, s);
    if s.len() == 0 {
        assert(seq![t] =~= Seq::<ThumbnailRecord>::empty().push(t));
        assert(Seq::<ThumbnailRecord>::empty().to_multiset() =~= Multiset::empty());
    } else if t.length < s[0].length {
        assert(r =~= s.insert(0, t));
        assert forall|i: int, j: int| 0 <= i <= j < r.len() implies #[trigger] r[i].length
            <= #[trigger] r[j].length by {
            if i > 0 {
                assert(s[i - 1].length <= s[j - 1].length);
            } else if j > 0 {
                assert(s[0].length <= s[j - 1].length);
            }
        }
    } else {
        let tail = s.drop_first();
        assert(ascending_by_length(tail)) by {
            assert forall|i: int, j: int| 0 <= i <= j < tail.len() implies #[trigger] tail[i].length
                <= #[trigger] tail[j].length by {
                assert(s[i + 1].length <= s[j + 1].length);
            }
        }
        lemma_insert_by_length(t, tail);
        let rest = insert_by_length(t, tail);
        assert(r =~= rest.insert(0, s[0]));
        assert(s =~= tail.insert(0, s[0]));
        assert forall|k: int| 0 <= k < rest.len() implies s[0].length <= #[trigger] rest[k].length by {
            let x = rest[k];
            assert(rest.contains(x));
            assert(rest.to_multiset().count(x) > 0);
            if x != t {
                assert(tail.to_multiset().count(x) > 0);
                let m = choose|m: int| 0 <= m < tail.len() && tail[m] == x;
                assert(s[0].length <= s[m + 1].length);
            }
        }
        assert forall|i: int, j: int| 0 <= i <= j < r.len() implies #[trigger] r[i].length
            <= #[trigger] r[j].length by {
            if i > 0 {
                assert(rest[i - 1].length <= rest[j - 1].length);
            } else if j > 0 {
                assert(s[0].length <= rest[j - 1].length);
            }
        }
        assert(r.to_multiset() == rest.to_multiset().insert(s[0]));
        assert(s.to_multiset() == tail.to_multiset().insert(s[0]));
        assert(r.to_multiset() =~= s.to_multiset().insert(t));
    }
}

/// The stable arrangement by length is ascending and holds exactly the
/// records it was made from.
pub proof fn lemma_sorted_by_length(s: Seq<ThumbnailRecord>)
    ensures
        ascending_by_length(sorted_by_length(s)),
        sorted_by_length(s).to_multiset() == s.to_multiset(),
        sorted_by_length(s).len() == s.len(),
    decreases s.len(),
{
    broadcast use vstd::seq_lib::group_to_multiset_ensures;

    if s.len() == 0 {
        assert(Seq::<ThumbnailRecord>::empty().to_multiset() =~= Multiset::empty());
    } else {
        let prefix = s.drop_last();
        lemma_sorted_by_length(prefix);
        lemma_insert_by_length(s.last(), sorted_by_length(prefix));
        assert(prefix.push(s.last()) =~= s);
    }
    assert(sorted_by_length(s).len() == sorted_by_length(s).to_multiset().len());
}

proof fn lemma_jpeg_only_members(s: Seq<ThumbnailRecord>)
    ensures
        forall|k: int| 0 <= k < jpeg_only(s).len() ==> #[trigger] is_jpeg(jpeg_only(s)[k]) && s.contains(jpeg_only(s)[k]),
        jpeg_only(s).len() <= s.len(),
    decreases s.len(),
{
    if s.len() > 0 {
        let prefix = s.drop_last();
        lemma_jpeg_only_members(prefix);
        assert forall|k: int| 0 <= k < jpeg_only(s).len() implies #[trigger] is_jpeg(jpeg_only(s)[k])
            && s.contains(jpeg_only(s)[k]) by {
            if k < jpeg_only(prefix).len() {
                let x = jpeg_only(prefix)[k];
                assert(is_jpeg(x) && prefix.contains(x));
                assert(jpeg_only(s)[k] == x);
                let m = choose|m: int| 0 <= m < prefix.len() && prefix[m] == x;
                assert(s[m] == prefix[m]);
            } else {
                assert(s[s.len() - 1] == s.last());
            }
        }
    }
}

proof fn lemma_jpeg_only_none(s: Seq<ThumbnailRecord>)
    requires
        forall|i: int| 0 <= i < s.len() ==> !is_jpeg(#[trigger] s[i]),
    ensures
        jpeg_only(s).len() == 0,
    decreases s.len(),
{
    if s.len() > 0 {
        let prefix = s.drop_last();
        assert forall|i: int| 0 <= i < prefix.len() implies !is_jpeg(#[trigger] prefix[i]) by {
            assert(prefix[i] == s[i]);
        }
        lemma_jpeg_only_none(prefix);
        assert(!is_jpeg(s[s.len() - 1]));
    }
}

/// A directory without a JPEG record yields no preview, whatever the skip.
pub proof fn lemma_no_jpeg_no_thumbnail(records: Seq<ThumbnailRecord>, skip: int)
    requires
        0 <= skip,
        forall|i: int| 0 <= i < records.len() ==> !is_jpeg(#[trigger] records[i]),
    ensures
        selected(records, skip) is None,
{
    lemma_jpeg_only_none(records);
    lemma_sorted_by_length(jpeg_only(records));
}

/// A directory with a single JPEG record yields that record, whatever the skip.
pub proof fn lemma_single_jpeg_chosen(records: Seq<ThumbnailRecord>, skip: int)
    requires
        0 <= skip,
        jpeg_only(records).len() == 1,
    ensures
        selected(records, skip) == Some(jpeg_only(records)[0]),
        is_jpeg(jpeg_only(records)[0]),
        records.contains(jpeg_only(records)[0]),
{
    let j = jpeg_only(records);
    lemma_jpeg_only_members(records);
    assert(j.drop_last() =~= Seq::<ThumbnailRecord>::empty());
    assert(sorted_by_length(j.drop_last()) =~= Seq::<ThumbnailRecord>::empty());
    assert(sorted_by_length(j) =~= seq![j[0]]);
    assert(is_jpeg(j[0]));
}

/// When no more than `skip + 1` JPEG records exist and at least one does,
/// the chosen record is a JPEG record of the directory that no other JPEG
/// record exceeds in length.
pub proof fn lemma_few_jpegs_largest_chosen(records: Seq<ThumbnailRecord>, skip: int)
    requires
        0 <= skip,
        1 <= jpeg_only(records).len() <= skip + 1,
    ensures
        selected(records, skip) is Some,
        is_jpeg(selected(records, skip)->Some_0),
        records.contains(selected(records, skip)->Some_0),
        forall|u: ThumbnailRecord| #[trigger] jpeg_only(records).contains(u) ==> u.length
            <= selected(records, skip)->Some_0.length,
{
    broadcast use vstd::seq_lib::group_to_multiset_ensures;

    let j = jpeg_only(records);
    let s = sorted_by_length(j);
    lemma_sorted_by_length(j);
    lemma_jpeg_only_members(records);
    let t = s.last();
    assert(s.contains(t));
    assert(j.to_multiset().count(t) > 0);
    let k = choose|k: int| 0 <= k < j.len() && j[k] == t;
    assert(is_jpeg(j[k]));
    assert forall|u: ThumbnailRecord| #[trigger] j.contains(u) implies u.length <= t.length by {
        assert(s.to_multiset().count(u) > 0);
        let m = choose|m: int| 0 <= m < s.len() && s[m] == u;
        assert(s[m].length <= s[s.len() - 1].length);
    }
}

/// When more than `skip + 1` JPEG records exist, the chosen record is the
/// one at index `skip` of those records arranged by ascending length.
pub proof fn lemma_many_jpegs_skip_chosen(records: Seq<ThumbnailRecord>, skip: int)
    requires
        0 <= skip,
        jpeg_only(records).len() > skip + 1,
    ensures
        ascending_by_length(sorted_by_length(jpeg_only(records))),
        sorted_by_length(jpeg_only(records)).to_multiset() == jpeg_only(records).to_multiset(),
        selected(records, skip) == Some(sorted_by_length(jpeg_only(records))[skip]),
        sorted_by_length(jpeg_only(records))[0].length <= selected(records, skip)->Some_0.length,
        selected(records, skip)->Some_0.length <= sorted_by_length(jpeg_only(records)).last().length,
{
    let s = sorted_by_length(jpeg_only(records));
    lemma_sorted_by_length(jpeg_only(records));
    assert(s[0].length <= s[skip].length);
    assert(s[skip].length <= s[s.len() - 1].length);
}

} // verus!
