//! The index of one distribution tree: which relative path serves which
//! virtual URL.

use crate::error::RecordFault;
use crate::error::ResolveError;
use crate::locator::url_parse;
use crate::locator::Locator;
use crate::records::csv_records;
use crate::records::read_records;
use crate::records::row_of;
use crate::records::rows_of;
use vstd::hash_map::StringHashMap;
use vstd::prelude::*;

verus! {

/// The two distribution trees. Their index files differ in the number of
/// columns that a record must have.
#[derive(Clone, Copy, Debug, PartialEq, Eq, Structural)]
pub enum Tree {
    Binaries,
    Resources,
}

impl Tree {
    /// The number of columns below which a record of this tree's index is
    /// malformed: the URL, the path, and the columns that nothing here
    /// reads.
    pub open spec fn columns(self) -> nat {
        match self {
            Tree::Binaries => 6,
            Tree::Resources => 5,
        }
    }

    /// The number of columns below which a record is malformed.
    pub fn min_columns(self) -> (n: usize)
        ensures
            n == self.columns(),
    {
        match self {
            Tree::Binaries => 6,
            Tree::Resources => 5,
        }
    }
}

/// The entry that a record stands for: the normal form of the URL in its
/// first column and the path in its second.
pub open spec fn entry_of(row: Option<Seq<Seq<char>>>, tree: Tree) -> Result<
    (Seq<char>, Seq<char>),
    RecordFault,
> {
    match row {
        None => Err(RecordFault::Unreadable),
        Some(fields) => if fields.len() < tree.columns() {
            Err(RecordFault::Columns)
        } else {
            match url_parse(fields[0]) {
                None => Err(RecordFault::Url),
                Some(url) => Ok((url, fields[1])),
            }
        },
    }
}

/// The index that a sequence of records stands for. Records are taken in
/// order, a later entry for a URL replaces an earlier one, and the first
/// malformed record fails the whole index.
pub open spec fn index_of_rows(rows: Seq<Option<Seq<Seq<char>>>>, tree: Tree) -> Result<
    Map<Seq<char>, Seq<char>>,
    ResolveError,
>
    decreases rows.len(),
{
    if rows.len() == 0 {
        Ok(Map::empty())
    } else {
        match index_of_rows(rows.drop_last(), tree) {
            Err(e) => Err(e),
            Ok(index) => match entry_of(rows.last(), tree) {
                Err(fault) => Err(
                    ResolveError::IndexParse { record: (rows.len() - 1) as usize, fault },
                ),
                Ok(entry) => Ok(index.insert(entry.0, entry.1)),
            },
        }
    }
}

/// A mapping from virtual URLs to relative paths.
pub struct AssetIndex {
    paths: StringHashMap<String>,
}

impl View for AssetIndex {
    type V = Map<Seq<char>, Seq<char>>;

    closed spec fn view(&self) -> Map<Seq<char>, Seq<char>> {
        self.paths@.map_values(|path: String| path@)
    }
}

impl AssetIndex {
    /// The index without entries.
    pub fn new() -> (index: AssetIndex)
        ensures
            index@ == Map::<Seq<char>, Seq<char>>::empty(),
    {
        let index = AssetIndex { paths: StringHashMap::new() };
        assert(index@ =~= Map::<Seq<char>, Seq<char>>::empty());
        index
    }

    /// Maps `url` to `path`, in place of what `url` was mapped to before.
    pub fn insert(&mut self, url: Locator, path: String)
        ensures
            final(self)@ == old(self)@.insert(url@, path@),
    {
        self.paths.insert(url.into_string(), path);
        assert(self@ =~= old(self)@.insert(url@, path@));
    }

    /// The path that `url` is mapped to.
    pub fn get(&self, url: &Locator) -> (path: Option<&String>)
        ensures
            match path {
                Some(p) => self@.contains_key(url@) && p@ == self@[url@],
                None => !self@.contains_key(url@),
            },
    {
        self.paths.get(url.as_str())
    }

    /// The number of URLs that the index maps.
    pub fn len(&self) -> (n: usize)
        ensures
            n == self@.len(),
    {
        broadcast use vstd::hash_map::group_hash_map_axioms;

        assert(self@.dom() =~= self.paths@.dom());
        self.paths.len()
    }

    /// The entry that one record stands for, given what the reader made of
    /// the record.
    pub fn entry<E>(read: &Result<Vec<String>, E>, tree: Tree) -> (r: Result<
        (Locator, String),
        RecordFault,
    >)
        ensures
            match r {
                Ok(entry) => entry_of(row_of(*read), tree) == Ok::<_, RecordFault>(
                    (entry.0@, entry.1@),
                ),
                Err(fault) => entry_of(row_of(*read), tree) == Err::<(Seq<char>, Seq<char>), _>(
                    fault,
                ),
            },
    {
        match read {
            Err(_) => Err(RecordFault::Unreadable),
            Ok(fields) => {
                if fields.len() < tree.min_columns() {
                    return Err(RecordFault::Columns);
                }
                match Locator::parse(fields[0].as_str()) {
                    None => Err(RecordFault::Url),
                    Some(url) => Ok((url, fields[1].clone())),
                }
            },
        }
    }

    /// Builds the index from what the reader made of the records. Either
    /// every record is well-formed and the index holds them all, or the
    /// first malformed record is reported and nothing of the index is
    /// handed out.
    pub fn from_rows<E>(read: &Vec<Result<Vec<String>, E>>, tree: Tree) -> (r: Result<
        AssetIndex,
        ResolveError,
    >)
        ensures
            match r {
                Ok(index) => index_of_rows(rows_of(read@), tree) == Ok::<_, ResolveError>(index@),
                Err(e) => index_of_rows(rows_of(read@), tree) == Err::<
                    Map<Seq<char>, Seq<char>>,
                    _,
                >(e),
            },
            r is Ok <==> forall|i: int|
                0 <= i < read.len() ==> entry_of(#[trigger] rows_of(read@)[i], tree) is Ok,
            r matches Err(e) ==> exists|n: int|
                first_fault(rows_of(read@), tree, n) && e == (ResolveError::IndexParse {
                    record: n as usize,
                    fault: entry_of(rows_of(read@)[n], tree)->Err_0,
                }),
    {
        let ghost rows = rows_of(read@);
        let mut index = AssetIndex::new();
        let mut i: usize = 0;
        while i < read.len()
            invariant
                i <= read.len(),
                rows == rows_of(read@),
                index_of_rows(rows.take(i as int), tree) == Ok::<_, ResolveError>(index@),
            decreases read.len() - i,
        {
            proof {
                assert(rows.take(i + 1).drop_last() =~= rows.take(i as int));
                assert(rows.take(i + 1).last() == row_of(read@[i as int]));
            }
            match AssetIndex::entry(&read[i], tree) {
                Err(fault) => {
                    proof {
                        lemma_fault_stays(rows, tree, i + 1);
                        lemma_index_built(rows.take(i as int), tree);
                        assert forall|j: int| 0 <= j < i implies entry_of(
                            #[trigger] rows[j],
                            tree,
                        ) is Ok by {
                            assert(rows.take(i as int)[j] == rows[j]);
                        }
                        assert(first_fault(rows, tree, i as int));
                        lemma_index_built(rows, tree);
                    }
                    return Err(ResolveError::IndexParse { record: i, fault });
                },
                Ok(entry) => {
                    index.insert(entry.0, entry.1);
                },
            }
            i = i + 1;
        }
        proof {
            assert(rows.take(read.len() as int) =~= rows);
            lemma_index_built(rows, tree);
        }
        Ok(index)
    }

    /// Reads an index file: delimited text without a header row, one record
    /// for each asset. Either every record is well-formed and the index
    /// holds them all, or the first malformed record is reported and
    /// nothing of the index is handed out.
    pub fn parse(data: &[u8], tree: Tree) -> (r: Result<AssetIndex, ResolveError>)
        ensures
            match r {
                Ok(index) => index_of_rows(csv_records(data@), tree) == Ok::<_, ResolveError>(
                    index@,
                ),
                Err(e) => index_of_rows(csv_records(data@), tree) == Err::<
                    Map<Seq<char>, Seq<char>>,
                    _,
                >(e),
            },
            r is Ok <==> forall|i: int|
                0 <= i < csv_records(data@).len() ==> entry_of(
                    #[trigger] csv_records(data@)[i],
                    tree,
                ) is Ok,
            r matches Err(e) ==> exists|n: int|
                first_fault(csv_records(data@), tree, n) && e == (ResolveError::IndexParse {
                    record: n as usize,
                    fault: entry_of(csv_records(data@)[n], tree)->Err_0,
                }),
    {
        let read = read_records(data);
        AssetIndex::from_rows(&read, tree)
    }
}

/// The records up to `n` failing, all of them fail, and with the same
/// error.
pub proof fn lemma_fault_stays(rows: Seq<Option<Seq<Seq<char>>>>, tree: Tree, n: int)
    requires
        0 <= n <= rows.len(),
        index_of_rows(rows.take(n), tree) is Err,
    ensures
        index_of_rows(rows, tree) == index_of_rows(rows.take(n), tree),
    decreases rows.len() - n,
{
    if n == rows.len() {
        assert(rows.take(n) =~= rows);
    } else {
        assert(rows.drop_last().take(n) =~= rows.take(n));
        lemma_fault_stays(rows.drop_last(), tree, n);
    }
}

/// Record `n` is malformed and no record before it is.
pub open spec fn first_fault(rows: Seq<Option<Seq<Seq<char>>>>, tree: Tree, n: int) -> bool {
    &&& 0 <= n < rows.len()
    &&& entry_of(rows[n], tree) is Err
    &&& forall|j: int| 0 <= j < n ==> entry_of(#[trigger] rows[j], tree) is Ok
}

/// Record `n` is the last one whose URL is `url`.
pub open spec fn last_entry_for(
    rows: Seq<Option<Seq<Seq<char>>>>,
    tree: Tree,
    url: Seq<char>,
    n: int,
) -> bool {
    &&& 0 <= n < rows.len()
    &&& entry_of(rows[n], tree) matches Ok(entry) && entry.0 == url
    &&& forall|j: int|
        n < j < rows.len() ==> !(entry_of(#[trigger] rows[j], tree) matches Ok(entry) && entry.0
            == url)
}

/// An index is built exactly when every record is well-formed.
pub proof fn lemma_index_built(rows: Seq<Option<Seq<Seq<char>>>>, tree: Tree)
    ensures
        index_of_rows(rows, tree) is Ok <==> forall|i: int|
            0 <= i < rows.len() ==> entry_of(#[trigger] rows[i], tree) is Ok,
    decreases rows.len(),
{
    if rows.len() > 0 {
        let front = rows.drop_last();
        lemma_index_built(front, tree);
        if index_of_rows(rows, tree) is Ok {
            assert forall|i: int| 0 <= i < rows.len() implies entry_of(
                #[trigger] rows[i],
                tree,
            ) is Ok by {
                if i < rows.len() - 1 {
                    assert(front[i] == rows[i]);
                }
            }
        }
        if forall|i: int| 0 <= i < rows.len() ==> entry_of(#[trigger] rows[i], tree) is Ok {
            assert forall|i: int| 0 <= i < front.len() implies entry_of(
                #[trigger] front[i],
                tree,
            ) is Ok by {
                assert(front[i] == rows[i]);
            }
            assert(entry_of(rows[rows.len() - 1], tree) is Ok);
        }
    }
}

/// Index construction is fail-fast: the first malformed record fails the
/// whole index, whatever came before it and whatever follows, and the error
/// names that record and what is wrong with it.
pub proof fn lemma_first_fault_fails(rows: Seq<Option<Seq<Seq<char>>>>, tree: Tree, n: int)
    requires
        first_fault(rows, tree, n),
    ensures
        index_of_rows(rows, tree) == Err::<Map<Seq<char>, Seq<char>>, _>(
            ResolveError::IndexParse { record: n as usize, fault: entry_of(rows[n], tree)->Err_0 },
        ),
{
    let upto = rows.take(n + 1);
    let before = rows.take(n);
    assert(upto.drop_last() =~= before);
    assert(upto.last() == rows[n]);
    lemma_index_built(before, tree);
    assert forall|i: int| 0 <= i < before.len() implies entry_of(
        #[trigger] before[i],
        tree,
    ) is Ok by {
        assert(before[i] == rows[i]);
    }
    lemma_fault_stays(rows, tree, n + 1);
}

/// A malformed record anywhere in the input fails the index.
pub proof fn lemma_any_fault_fails(rows: Seq<Option<Seq<Seq<char>>>>, tree: Tree, n: int)
    requires
        0 <= n < rows.len(),
        entry_of(rows[n], tree) is Err,
    ensures
        index_of_rows(rows, tree) is Err,
{
    lemma_index_built(rows, tree);
}

/// The record holds an entry for `url`.
pub open spec fn holds(row: Option<Seq<Seq<char>>>, tree: Tree, url: Seq<char>) -> bool {
    entry_of(row, tree) matches Ok(entry) && entry.0 == url
}

/// The records without those that hold an entry for `url`.
pub open spec fn without(
    rows: Seq<Option<Seq<Seq<char>>>>,
    tree: Tree,
    url: Seq<char>,
) -> Seq<Option<Seq<Seq<char>>>> {
    rows.filter(|row: Option<Seq<Seq<char>>>| !holds(row, tree, url))
}

/// Taking the records of one URL out of well-formed input takes that URL
/// out of the index and leaves every other entry as it was.
pub proof fn lemma_without(rows: Seq<Option<Seq<Seq<char>>>>, tree: Tree, url: Seq<char>)
    requires
        index_of_rows(rows, tree) is Ok,
    ensures
        index_of_rows(without(rows, tree, url), tree) == Ok::<_, ResolveError>(
            index_of_rows(rows, tree)->Ok_0.remove(url),
        ),
    decreases rows.len(),
{
    reveal(Seq::filter);
    if rows.len() == 0 {
        assert(Map::<Seq<char>, Seq<char>>::empty().remove(url) =~= Map::empty());
    } else {
        let front = rows.drop_last();
        let index = index_of_rows(front, tree)->Ok_0;
        let entry = entry_of(rows.last(), tree)->Ok_0;
        lemma_without(front, tree, url);
        if holds(rows.last(), tree, url) {
            assert(index.insert(entry.0, entry.1).remove(url) =~= index.remove(url));
        } else {
            let rest = without(front, tree, url);
            assert(rest.push(rows.last()).drop_last() =~= rest);
            assert(index.remove(url).insert(entry.0, entry.1) =~= index.insert(
                entry.0,
                entry.1,
            ).remove(url));
        }
    }
}

/// Lookup after construction. An index that was built maps exactly the URLs
/// of its records, each to the path of the last record that holds it.
pub proof fn lemma_index_lookup(rows: Seq<Option<Seq<Seq<char>>>>, tree: Tree, url: Seq<char>)
    requires
        index_of_rows(rows, tree) is Ok,
    ensures
        index_of_rows(rows, tree)->Ok_0.contains_key(url) <==> exists|n: int|
            last_entry_for(rows, tree, url, n),
        forall|n: int|
            last_entry_for(rows, tree, url, n) ==> index_of_rows(rows, tree)->Ok_0[url]
                == entry_of(rows[n], tree)->Ok_0.1,
    decreases rows.len(),
{
    let index = index_of_rows(rows, tree)->Ok_0;
    if rows.len() > 0 {
        let front = rows.drop_last();
        let m = rows.len() - 1;
        let entry = entry_of(rows[m], tree)->Ok_0;
        lemma_index_lookup(front, tree, url);
        assert forall|j: int| 0 <= j < front.len() implies front[j] == rows[j] by {}
        if entry.0 == url {
            assert(last_entry_for(rows, tree, url, m));
            assert forall|n: int| last_entry_for(rows, tree, url, n) implies n == m by {
                if n < m {
                    assert(entry_of(rows[m], tree) matches Ok(e) && e.0 == url);
                }
            }
        } else {
            assert forall|n: int| last_entry_for(rows, tree, url, n) implies last_entry_for(
                front,
                tree,
                url,
                n,
            ) by {
                assert(n != m);
                assert forall|j: int| n < j < front.len() implies !(entry_of(
                    #[trigger] front[j],
                    tree,
                ) matches Ok(e) && e.0 == url) by {
                    assert(front[j] == rows[j]);
                }
            }
            if exists|n: int| last_entry_for(front, tree, url, n) {
                let n = choose|n: int| last_entry_for(front, tree, url, n);
                assert forall|j: int| n < j < rows.len() implies !(entry_of(
                    #[trigger] rows[j],
                    tree,
                ) matches Ok(e) && e.0 == url) by {
                    if j < m {
                        assert(front[j] == rows[j]);
                    }
                }
                assert(last_entry_for(rows, tree, url, n));
            }
        }
    } else {
        assert(!index.contains_key(url));
    }
}

} // verus!
