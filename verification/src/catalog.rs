//! The photo catalog: which directories are photos, and which file of each is
//! the source image.

use vstd::prelude::*;
use vstd::string::*;

verus! {

/// Name of the photo that is the source where a directory holds no
/// high-resolution file.
pub const FALLBACK_PHOTO_NAME: &'static str = "photo.jpg";

/// One photo of the catalog: its numeric id and the image it is made from.
/// `P` is whatever the caller names files with.
#[derive(Debug)]
pub struct CatalogEntry<P> {
    pub id: u64,
    pub source_path: P,
}

pub open spec fn is_digit(c: char) -> bool {
    '0' <= c && c <= '9'
}

pub open spec fn digit_value(c: char) -> int {
    c as int - '0' as int
}

/// The number that a sequence of decimal digits writes, most significant first.
pub open spec fn decimal_value(digits: Seq<char>) -> int
    decreases digits.len(),
{
    if digits.len() == 0 {
        0
    } else {
        10 * decimal_value(digits.drop_last()) + digit_value(digits.last())
    }
}

/// A name without the plus sign that may lead it.
pub open spec fn unsigned_part(name: Seq<char>) -> Seq<char> {
    if name.len() > 0 && name[0] == '+' {
        name.drop_first()
    } else {
        name
    }
}

pub open spec fn all_digits(digits: Seq<char>) -> bool {
    forall|i: int| 0 <= i < digits.len() ==> is_digit(#[trigger] digits[i])
}

/// The photo id that a directory name stands for: the name is one or more
/// decimal digits, after an optional plus sign, and the number fits in 64
/// bits. Leading zeros do not count. Any other name stands for no photo.
pub open spec fn photo_id_of(name: Seq<char>) -> Option<u64> {
    let digits = unsigned_part(name);
    if digits.len() > 0 && all_digits(digits) && decimal_value(digits) <= u64::MAX {
        Some(decimal_value(digits) as u64)
    } else {
        None
    }
}

/// A number never gets smaller by writing more digits behind it.
pub proof fn lemma_decimal_value_grows(digits: Seq<char>, n: int)
    requires
        all_digits(digits),
        0 <= n <= digits.len(),
    ensures
        0 <= decimal_value(digits.take(n)) <= decimal_value(digits),
    decreases digits.len(),
{
    if n == digits.len() {
        assert(digits.take(n) =~= digits);
        if n > 0 {
            lemma_decimal_value_grows(digits.drop_last(), n - 1);
            assert(is_digit(digits[n - 1]));
        }
    } else {
        assert(all_digits(digits.drop_last()));
        lemma_decimal_value_grows(digits.drop_last(), n);
        assert(digits.drop_last().take(n) =~= digits.take(n));
        assert(is_digit(digits[digits.len() - 1]));
    }
}

/// Reads a directory name as a photo id.
pub fn parse_photo_id(name: &str) -> (id: Option<u64>)
    ensures
        id == photo_id_of(name@),
{
    broadcast use vstd::string::axiom_spec_iter;

    let mut value: u64 = 0;
    let mut first = true;
    let mut signed = false;
    let mut seen = false;
    for c in it: name.chars()
        invariant
            it.seq() == name@,
            first == (it.index() == 0),
            signed == (it.index() > 0 && name@[0] == '+'),
            seen == (unsigned_part(name@).take(it.index() - if signed { 1int } else { 0 }).len()
                > 0),
            !signed ==> unsigned_part(name@).take(it.index()) =~= name@.take(it.index()),
            all_digits(unsigned_part(name@).take(it.index() - if signed { 1int } else { 0 })),
            value == decimal_value(
                unsigned_part(name@).take(it.index() - if signed { 1int } else { 0 }),
            ),
    {
        let ghost k = it.index();
        let ghost digits = unsigned_part(name@);
        let ghost n = k - if signed { 1int } else { 0 };
        if first && c == '+' {
            first = false;
            signed = true;
            proof {
                assert(digits.take(0).len() == 0);
            }
        } else {
            first = false;
            proof {
                assert(digits[n] == c);
                assert(digits.take(n + 1).drop_last() =~= digits.take(n));
                assert(digits.take(n + 1).last() == c);
            }
            if !('0' <= c && c <= '9') {
                proof {
                    assert(!is_digit(digits[n]));
                }
                return None;
            }
            let digit: u64 = (c as u64) - ('0' as u64);
            let next = match value.checked_mul(10) {
                Some(tens) => tens.checked_add(digit),
                None => None,
            };
            match next {
                Some(v) => {
                    value = v;
                    seen = true;
                    proof {
                        assert forall|i: int| 0 <= i < n + 1 implies is_digit(
                            #[trigger] digits.take(n + 1)[i],
                        ) by {
                            if i < n {
                                assert(digits.take(n)[i] == digits.take(n + 1)[i]);
                            }
                        }
                    }
                },
                None => {
                    proof {
                        assert(decimal_value(digits.take(n + 1)) > u64::MAX);
                        if all_digits(digits) {
                            lemma_decimal_value_grows(digits, n + 1);
                        }
                    }
                    return None;
                },
            }
        }
    }
    proof {
        let digits = unsigned_part(name@);
        assert(digits.take(digits.len() as int) =~= digits);
    }
    if seen {
        Some(value)
    } else {
        None
    }
}

/// Whether a file name has the extension of the high-resolution format: a
/// stem of at least one character, then `.tif`, in lower case.
pub open spec fn has_tif_extension(file_name: Seq<char>) -> bool {
    &&& file_name.len() > 4
    &&& file_name[file_name.len() - 4] == '.'
    &&& file_name[file_name.len() - 3] == 't'
    &&& file_name[file_name.len() - 2] == 'i'
    &&& file_name[file_name.len() - 1] == 'f'
}

/// Tells whether a directory entry is a high-resolution source: a regular
/// file whose name ends in `.tif`.
pub fn is_tif(file_name: &str, is_file: bool) -> (tif: bool)
    ensures
        tif == (is_file && has_tif_extension(file_name@)),
{
    if !is_file {
        return false;
    }
    let n = file_name.unicode_len();
    if n <= 4 {
        return false;
    }
    file_name.get_char(n - 4) == '.' && file_name.get_char(n - 3) == 't' && file_name.get_char(
        n - 2,
    ) == 'i' && file_name.get_char(n - 1) == 'f'
}

/// Reads one entry of the catalog root: a directory whose name is a photo id
/// is a photo, anything else is passed over.
pub fn process_dir_entry(dir_name: &str, is_dir: bool) -> (id: Option<u64>)
    ensures
        id == if is_dir {
            photo_id_of(dir_name@)
        } else {
            None
        },
{
    if is_dir {
        parse_photo_id(dir_name)
    } else {
        None
    }
}

/// What the search for a photo's source image came to.
#[derive(Clone, Copy, Debug, PartialEq, Eq, Structural)]
pub enum SourceFound {
    /// Exactly one high-resolution file: it is the source.
    Tif,
    /// Several high-resolution files: the first one met is the source.
    FirstOfSeveralTifs,
    /// No high-resolution file: the fallback photo is the source.
    Fallback,
    /// No high-resolution file and no fallback photo: the photo is dropped.
    Missing,
}

/// Which source a photo directory offers, by what was found in it.
pub open spec fn source_found(tif_count: nat, has_fallback: bool) -> SourceFound {
    if tif_count == 1 {
        SourceFound::Tif
    } else if tif_count > 1 {
        SourceFound::FirstOfSeveralTifs
    } else if has_fallback {
        SourceFound::Fallback
    } else {
        SourceFound::Missing
    }
}

/// The catalog after one photo directory was looked through.
pub open spec fn with_source<P>(
    photos: Seq<CatalogEntry<P>>,
    photo_id: u64,
    tif_files: Seq<P>,
    fallback_photo: Option<P>,
) -> Seq<CatalogEntry<P>> {
    if tif_files.len() > 0 {
        photos.push(CatalogEntry { id: photo_id, source_path: tif_files[0] })
    } else {
        match fallback_photo {
            Some(path) => photos.push(CatalogEntry { id: photo_id, source_path: path }),
            None => photos,
        }
    }
}

/// Picks the source image of photo `photo_id` and enters it in the catalog.
///
/// `tif_files` are the high-resolution files found under the photo's
/// directory, in the order in which they were met; `fallback_photo` is the
/// fallback photo directly inside the directory, where there is one.
pub fn process_ok_path<P>(
    photo_id: u64,
    tif_files: Vec<P>,
    fallback_photo: Option<P>,
    photos_list: &mut Vec<CatalogEntry<P>>,
) -> (found: SourceFound)
    ensures
        found == source_found(tif_files@.len(), fallback_photo is Some),
        final(photos_list)@ == with_source(
            old(photos_list)@,
            photo_id,
            tif_files@,
            fallback_photo,
        ),
{
    let mut tif_files = tif_files;
    let count = tif_files.len();
    if count > 0 {
        let first = tif_files.remove(0);
        photos_list.push(CatalogEntry { id: photo_id, source_path: first });
        if count == 1 {
            SourceFound::Tif
        } else {
            SourceFound::FirstOfSeveralTifs
        }
    } else {
        match fallback_photo {
            Some(path) => {
                photos_list.push(CatalogEntry { id: photo_id, source_path: path });
                SourceFound::Fallback
            },
            None => SourceFound::Missing,
        }
    }
}

/// Ids never fall from one entry to the next.
pub open spec fn sorted_by_id<P>(photos: Seq<CatalogEntry<P>>) -> bool {
    forall|i: int, j: int| 0 <= i <= j < photos.len() ==> photos[i].id <= photos[j].id
}

pub open spec fn has_id<P>(id: u64) -> spec_fn(CatalogEntry<P>) -> bool {
    |entry: CatalogEntry<P>| entry.id == id
}

/// The entries of one id, in the order in which they stand.
pub open spec fn with_id<P>(photos: Seq<CatalogEntry<P>>, id: u64) -> Seq<CatalogEntry<P>> {
    photos.filter(has_id(id))
}

/// Putting an entry in front of the first entry whose id is not smaller does
/// to the entries of every id what putting it first would do.
proof fn lemma_insert_keeps_groups<P>(
    photos: Seq<CatalogEntry<P>>,
    at: int,
    entry: CatalogEntry<P>,
    id: u64,
)
    requires
        0 <= at <= photos.len(),
        forall|i: int| 0 <= i < at ==> photos[i].id < entry.id,
    ensures
        with_id(photos.insert(at, entry), id) == with_id(seq![entry] + photos, id),
{
    let pred = has_id::<P>(id);
    let head = photos.take(at);
    let tail = photos.skip(at);
    let one = seq![entry];
    assert(photos.insert(at, entry) =~= (head + one) + tail);
    assert(seq![entry] + photos =~= (one + head) + tail);
    Seq::filter_distributes_over_add(head + one, tail, pred);
    Seq::filter_distributes_over_add(one + head, tail, pred);
    Seq::filter_distributes_over_add(head, one, pred);
    Seq::filter_distributes_over_add(one, head, pred);
    if entry.id == id {
        assert forall|i: int| 0 <= i < head.len() implies !pred(#[trigger] head[i]) by {
            assert(head[i] == photos[i]);
        }
        head.lemma_all_neg_filter_empty(pred);
        assert(head.filter(pred) + one.filter(pred) =~= one.filter(pred) + head.filter(pred));
    } else {
        assert forall|i: int| 0 <= i < one.len() implies !pred(#[trigger] one[i]) by {}
        one.lemma_all_neg_filter_empty(pred);
        assert(head.filter(pred) + one.filter(pred) =~= one.filter(pred) + head.filter(pred));
    }
}

/// The entries of an id, told off the first entry and the rest.
proof fn lemma_with_id_unfolds<P>(photos: Seq<CatalogEntry<P>>, id: u64)
    requires
        photos.len() > 0,
    ensures
        with_id(photos, id) == if photos[0].id == id {
            seq![photos[0]] + with_id(photos.drop_first(), id)
        } else {
            with_id(photos.drop_first(), id)
        },
{
    let pred = has_id::<P>(id);
    assert(seq![photos[0]] + photos.drop_first() =~= photos);
    photos.drop_first().lemma_filter_prepend(photos[0], pred);
    if photos[0].id != id {
        assert(Seq::<CatalogEntry<P>>::empty() + with_id(photos.drop_first(), id) =~= with_id(
            photos.drop_first(),
            id,
        ));
    }
}

/// Where the entries of an id are not empty, one of them stands in the
/// catalog, and the other way round.
proof fn lemma_with_id_finds<P>(photos: Seq<CatalogEntry<P>>, id: u64)
    ensures
        with_id(photos, id).len() > 0 <==> exists|i: int|
            0 <= i < photos.len() && (#[trigger] photos[i]).id == id,
{
    let pred = has_id::<P>(id);
    let group = photos.filter(pred);
    if group.len() > 0 {
        photos.lemma_filter_pred(pred, 0);
        assert(group.contains(group[0]));
        photos.lemma_filter_contains_rev(pred, group[0]);
        let i = choose|i: int| 0 <= i < photos.len() && photos[i] == group[0];
        assert(photos[i].id == id);
    }
    if exists|i: int| 0 <= i < photos.len() && (#[trigger] photos[i]).id == id {
        let i = choose|i: int| 0 <= i < photos.len() && (#[trigger] photos[i]).id == id;
        assert(pred(photos[i]));
        photos.lemma_filter_contains(pred, i);
    }
}

/// The order of a sorted catalog is settled by the entries of each id: two
/// catalogs that are sorted by id and hold, for every id, the same entries in
/// the same order are one catalog.
pub proof fn lemma_sorted_catalog_is_unique<P>(
    one: Seq<CatalogEntry<P>>,
    other: Seq<CatalogEntry<P>>,
)
    requires
        sorted_by_id(one),
        sorted_by_id(other),
        forall|id: u64| #[trigger] with_id(one, id) == with_id(other, id),
    ensures
        one == other,
    decreases one.len(),
{
    if one.len() == 0 {
        if other.len() > 0 {
            lemma_with_id_finds(other, other[0].id);
            lemma_with_id_finds(one, other[0].id);
            assert(with_id(one, other[0].id) == with_id(other, other[0].id));
        }
        assert(one =~= other);
    } else {
        let low = one[0].id;
        lemma_with_id_finds(one, low);
        lemma_with_id_finds(other, low);
        assert(with_id(one, low) == with_id(other, low));
        let j = choose|j: int| 0 <= j < other.len() && (#[trigger] other[j]).id == low;
        assert(other[0].id <= other[j].id);
        lemma_with_id_finds(other, other[0].id);
        lemma_with_id_finds(one, other[0].id);
        assert(with_id(one, other[0].id) == with_id(other, other[0].id));
        let i = choose|i: int| 0 <= i < one.len() && (#[trigger] one[i]).id == other[0].id;
        assert(one[0].id <= one[i].id);
        assert(other[0].id == low);
        lemma_with_id_unfolds(one, low);
        lemma_with_id_unfolds(other, low);
        assert(with_id(one, low)[0] == one[0]);
        assert(with_id(other, low)[0] == other[0]);
        assert(one[0] == other[0]);
        let rest_one = one.drop_first();
        let rest_other = other.drop_first();
        assert forall|id: u64| #[trigger] with_id(rest_one, id) == with_id(rest_other, id) by {
            lemma_with_id_unfolds(one, id);
            lemma_with_id_unfolds(other, id);
            assert(with_id(one, id) == with_id(other, id));
            if id == low {
                assert((seq![one[0]] + with_id(rest_one, id)).drop_first() =~= with_id(
                    rest_one,
                    id,
                ));
                assert((seq![other[0]] + with_id(rest_other, id)).drop_first() =~= with_id(
                    rest_other,
                    id,
                ));
            }
        }
        assert(sorted_by_id(rest_one)) by {
            assert forall|i: int, j: int| 0 <= i <= j < rest_one.len() implies rest_one[i].id
                <= rest_one[j].id by {
                assert(one[i + 1].id <= one[j + 1].id);
            }
        }
        assert(sorted_by_id(rest_other)) by {
            assert forall|i: int, j: int| 0 <= i <= j < rest_other.len() implies rest_other[i].id
                <= rest_other[j].id by {
                assert(other[i + 1].id <= other[j + 1].id);
            }
        }
        lemma_sorted_catalog_is_unique(rest_one, rest_other);
        assert(one =~= seq![one[0]] + rest_one);
        assert(other =~= seq![other[0]] + rest_other);
    }
}

/// Sorts the catalog by id, smallest first. Entries of one id keep the order
/// in which they stood.
pub fn sort_by_id<P>(list: Vec<CatalogEntry<P>>) -> (sorted: Vec<CatalogEntry<P>>)
    ensures
        sorted_by_id(sorted@),
        sorted@.to_multiset() == list@.to_multiset(),
        forall|id: u64| #[trigger] with_id(sorted@, id) == with_id(list@, id),
{
    let ghost orig = list@;
    let mut rest = list;
    let mut sorted: Vec<CatalogEntry<P>> = Vec::new();
    proof {
        assert(orig.take(orig.len() as int) =~= orig);
        assert(orig.skip(orig.len() as int) =~= sorted@);
    }
    while rest.len() > 0
        invariant
            rest@.len() <= orig.len(),
            rest@ == orig.take(rest@.len() as int),
            sorted_by_id(sorted@),
            sorted@.to_multiset() == orig.skip(rest@.len() as int).to_multiset(),
            forall|id: u64| #[trigger]
                with_id(sorted@, id) == with_id(orig.skip(rest@.len() as int), id),
        decreases rest@.len(),
    {
        let ghost n = rest@.len() as int;
        let ghost before = sorted@;
        let entry = rest.pop().unwrap();
        let mut at: usize = 0;
        while at < sorted.len() && sorted[at].id < entry.id
            invariant
                at <= sorted.len(),
                forall|i: int| 0 <= i < at ==> sorted[i].id < entry.id,
            decreases sorted.len() - at,
        {
            at += 1;
        }
        sorted.insert(at, entry);
        proof {
            assert(entry == orig[n - 1]);
            assert(rest@ =~= orig.take(n - 1));
            assert(seq![entry] + orig.skip(n) =~= orig.skip(n - 1));
            assert(before.insert(0, entry) =~= seq![entry] + before);
            assert(orig.skip(n).insert(0, entry) =~= orig.skip(n - 1));
            vstd::seq_lib::to_multiset_insert(before, at as int, entry);
            vstd::seq_lib::to_multiset_insert(orig.skip(n), 0, entry);
            assert forall|id: u64| #[trigger]
                with_id(sorted@, id) == with_id(orig.skip(n - 1), id) by {
                lemma_insert_keeps_groups(before, at as int, entry, id);
                let pred = has_id::<P>(id);
                Seq::filter_distributes_over_add(seq![entry], before, pred);
                Seq::filter_distributes_over_add(seq![entry], orig.skip(n), pred);
                assert(with_id(before, id) == with_id(orig.skip(n), id));
            }
        }
    }
    proof {
        assert(orig.skip(0) =~= orig);
    }
    sorted
}

} // verus!
