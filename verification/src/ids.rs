//! The fixed, ordered list of media identifiers that every media page renders.
//! It is constant for the process lifetime; each entry names one remote asset.

use vstd::prelude::*;

verus! {

/// The identifier list, in rendering order.
pub open spec fn spec_media_ids() -> Seq<Seq<char>> {
    seq![
        "757b142d71614ed68f19cb794016ff06"@,
        "43ee1282abce49dfaf35356d0cff9b60"@,
        "a217e48bece94060aa270983a0876c40"@,
        "1808d521161a478998786d6e3bd6d1df"@,
        "37e6cf4cc8804ce4a6203fffa38d14a3"@,
        "8d4c64f54b3c4516b3a27d376527e4dd"@,
    ]
}

/// Returns the identifier list as owned strings, in list order.
pub fn media_ids() -> (ids: Vec<String>)
    ensures
        ids@.len() == spec_media_ids().len(),
        forall|i: int| 0 <= i < ids@.len() ==> ids@[i]@ == spec_media_ids()[i],
{
    let mut ids: Vec<String> = Vec::new();
    ids.push("757b142d71614ed68f19cb794016ff06".to_owned());
    ids.push("43ee1282abce49dfaf35356d0cff9b60".to_owned());
    ids.push("a217e48bece94060aa270983a0876c40".to_owned());
    ids.push("1808d521161a478998786d6e3bd6d1df".to_owned());
    ids.push("37e6cf4cc8804ce4a6203fffa38d14a3".to_owned());
    ids.push("8d4c64f54b3c4516b3a27d376527e4dd".to_owned());
    ids
}

/// The identifier list holds exactly six entries, every entry is non-empty,
/// and no two entries are the same.
pub proof fn lemma_media_ids_distinct()
    ensures
        spec_media_ids().len() == 6,
        forall|i: int| 0 <= i < spec_media_ids().len() ==> spec_media_ids()[i].len() > 0,
        forall|i: int, j: int|
            0 <= i < j < spec_media_ids().len() ==> spec_media_ids()[i] != spec_media_ids()[j],
{
    reveal_strlit("757b142d71614ed68f19cb794016ff06");
    reveal_strlit("43ee1282abce49dfaf35356d0cff9b60");
    reveal_strlit("a217e48bece94060aa270983a0876c40");
    reveal_strlit("1808d521161a478998786d6e3bd6d1df");
    reveal_strlit("37e6cf4cc8804ce4a6203fffa38d14a3");
    reveal_strlit("8d4c64f54b3c4516b3a27d376527e4dd");
    // The entries differ pairwise already in their first character.
    assert(spec_media_ids()[0][0] == '7');
    assert(spec_media_ids()[1][0] == '4');
    assert(spec_media_ids()[2][0] == 'a');
    assert(spec_media_ids()[3][0] == '1');
    assert(spec_media_ids()[4][0] == '3');
    assert(spec_media_ids()[5][0] == '8');
}

} // verus!
