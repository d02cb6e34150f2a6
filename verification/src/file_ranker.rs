//! Ranking of file search results by how they matched.
use vstd::prelude::*;

verus! {

/// What part of a path matched a search.
pub enum SearchMatchType {
    FileName,
    DirectoryName,
    FullPath,
}

/// A file search result.
pub struct SearchResult {
    pub path: String,
    pub is_file: bool,
    pub match_type: SearchMatchType,
}

/// The score of a match: a file name match outranks a directory name match, which
/// outranks a full path match.
pub open spec fn score_of(mt: SearchMatchType) -> i64 {
    match mt {
        SearchMatchType::FileName => 100,
        SearchMatchType::DirectoryName => 10,
        SearchMatchType::FullPath => 1,
    }
}

/// The score of a match.
pub fn match_type_score(mt: &SearchMatchType) -> (r: i64)
    ensures
        r == score_of(*mt),
{
    match mt {
        SearchMatchType::FileName => 100,
        SearchMatchType::DirectoryName => 10,
        SearchMatchType::FullPath => 1,
    }
}

/// The results ranked: every file name match, then every directory name match, then
/// every full path match, each group in its original order (a stable sort by
/// descending score).
pub open spec fn ranked(rs: Seq<SearchResult>) -> Seq<SearchResult> {
    rs.filter(|r: SearchResult| r.match_type is FileName) + rs.filter(
        |r: SearchResult| r.match_type is DirectoryName,
    ) + rs.filter(|r: SearchResult| r.match_type is FullPath)
}

/// Ranks search results.
#[derive(Clone, Copy)]
pub struct FileRanker;

impl FileRanker {
    pub fn new() -> (r: Self) {
        FileRanker
    }

    /// The results ordered by descending score, equal scores keeping their order.
    pub fn rank_search_results(&self, results: Vec<SearchResult>) -> (r: Vec<SearchResult>)
        ensures
            r@ == ranked(results@),
    {
        let ghost all = results@;
        let ghost pf = |r: SearchResult| r.match_type is FileName;
        let ghost pd = |r: SearchResult| r.match_type is DirectoryName;
        let ghost pp = |r: SearchResult| r.match_type is FullPath;
        let mut files: Vec<SearchResult> = Vec::new();
        let mut dirs: Vec<SearchResult> = Vec::new();
        let mut paths: Vec<SearchResult> = Vec::new();
        let total: usize = results.len();
        let mut rest = results;
        let mut i: usize = 0;
        proof {
            reveal_with_fuel(Seq::<_>::filter, 1);
            assert(all.take(0) =~= Seq::<SearchResult>::empty());
            assert(all.subrange(0, all.len() as int) =~= all);
        }
        while rest.len() > 0
            invariant
                i + rest@.len() == all.len(),
                all.len() == total,
                rest@ == all.subrange(i as int, all.len() as int),
                pf == (|r: SearchResult| r.match_type is FileName),
                pd == (|r: SearchResult| r.match_type is DirectoryName),
                pp == (|r: SearchResult| r.match_type is FullPath),
                files@ == all.take(i as int).filter(pf),
                dirs@ == all.take(i as int).filter(pd),
                paths@ == all.take(i as int).filter(pp),
            decreases rest.len(),
        {
            let x = rest.remove(0);
            assert(x == all[i as int]);
            proof {
                reveal_with_fuel(Seq::<_>::filter, 1);
                assert(all.take(i + 1).drop_last() =~= all.take(i as int));
                assert(all.take(i + 1).last() == x);
            }
            match x.match_type {
                SearchMatchType::FileName => files.push(x),
                SearchMatchType::DirectoryName => dirs.push(x),
                SearchMatchType::FullPath => paths.push(x),
            }
            assert(rest@ =~= all.subrange(i + 1, all.len() as int));
            i = i + 1;
        }
        assert(all.take(i as int) =~= all);
        files.append(&mut dirs);
        files.append(&mut paths);
        files
    }
}

/// Ranking orders the results by descending score.
pub proof fn law_ranked_by_descending_score(rs: Seq<SearchResult>, i: int, j: int)
    requires
        0 <= i < j < ranked(rs).len(),
    ensures
        score_of(ranked(rs)[i].match_type) >= score_of(ranked(rs)[j].match_type),
{
    broadcast use vstd::seq_lib::group_filter_ensures;

    let f = rs.filter(|r: SearchResult| r.match_type is FileName);
    let d = rs.filter(|r: SearchResult| r.match_type is DirectoryName);
    let p = rs.filter(|r: SearchResult| r.match_type is FullPath);
    let out = ranked(rs);
    assert(out == f + d + p);
    if i < f.len() {
        assert(out[i] == f[i]);
    } else if i < f.len() + d.len() {
        assert(out[i] == d[i - f.len()]);
        if j < f.len() + d.len() {
            assert(out[j] == d[j - f.len()]);
        } else {
            assert(out[j] == p[j - f.len() - d.len()]);
        }
    } else {
        assert(out[i] == p[i - f.len() - d.len()]);
        assert(out[j] == p[j - f.len() - d.len()]);
    }
}

proof fn lemma_groups_multiset(rs: Seq<SearchResult>)
    ensures
        rs.filter(|r: SearchResult| r.match_type is FileName).to_multiset().add(
            rs.filter(|r: SearchResult| r.match_type is DirectoryName).to_multiset(),
        ).add(rs.filter(|r: SearchResult| r.match_type is FullPath).to_multiset())
            == rs.to_multiset(),
    decreases rs.len(),
{
    broadcast use vstd::multiset::group_multiset_axioms;
    broadcast use vstd::seq_lib::group_to_multiset_ensures;

    reveal_with_fuel(Seq::<_>::filter, 1);
    if rs.len() == 0 {
        assert(rs.to_multiset() =~= vstd::multiset::Multiset::empty());
        assert(rs.filter(|r: SearchResult| r.match_type is FileName).to_multiset().add(
            rs.filter(|r: SearchResult| r.match_type is DirectoryName).to_multiset(),
        ).add(rs.filter(|r: SearchResult| r.match_type is FullPath).to_multiset())
            =~= rs.to_multiset());
    } else {
        let init = rs.drop_last();
        let x = rs.last();
        lemma_groups_multiset(init);
        assert(rs =~= init.push(x));
        assert(rs.filter(|r: SearchResult| r.match_type is FileName).to_multiset().add(
            rs.filter(|r: SearchResult| r.match_type is DirectoryName).to_multiset(),
        ).add(rs.filter(|r: SearchResult| r.match_type is FullPath).to_multiset())
            =~= rs.to_multiset());
    }
}

/// Ranking loses and adds no result: it is a permutation of its input.
pub proof fn law_ranking_is_permutation(rs: Seq<SearchResult>)
    ensures
        ranked(rs).to_multiset() == rs.to_multiset(),
{
    let f = rs.filter(|r: SearchResult| r.match_type is FileName);
    let d = rs.filter(|r: SearchResult| r.match_type is DirectoryName);
    let p = rs.filter(|r: SearchResult| r.match_type is FullPath);
    vstd::seq_lib::lemma_multiset_commutative(f, d);
    vstd::seq_lib::lemma_multiset_commutative(f + d, p);
    lemma_groups_multiset(rs);
}

} // verus!
