//! The relational store model: a database of artist and concert rows
//! with unique identifiers and an enforced artist reference, and the
//! transaction that every write runs inside. A transaction is a draft of
//! the whole database; nothing reaches the database until `commit`, so a
//! write abandoned on an error path leaves no trace.

use crate::domain::Artist;
use crate::domain::Concert;
use crate::domain::date_le;
use crate::domain::date_le_of;
use crate::domain::sorted_by_date;
use vstd::prelude::*;

verus! {

broadcast use vstd::seq_lib::group_to_multiset_ensures;

/// Why the store refused a write.
#[derive(Clone, Copy, Debug, PartialEq, Eq, Structural)]
pub enum StorageError {
    /// No row carries the requested identifier.
    RowNotFound,
    /// A row with the same identifier already exists.
    UniqueViolation,
    /// The referenced artist does not exist.
    ForeignKeyViolation,
}

pub open spec fn has_artist_id(rows: Seq<Artist>, id: u128) -> bool {
    exists|i: int| 0 <= i < rows.len() && (#[trigger] rows[i]).id == id
}

pub open spec fn has_concert_id(rows: Seq<Concert>, id: u128) -> bool {
    exists|i: int| 0 <= i < rows.len() && (#[trigger] rows[i]).id == id
}

/// The position of the row carrying the identifier, meaningful when
/// `has_artist_id` holds; with unique identifiers it is the only one.
pub open spec fn artist_index_of(rows: Seq<Artist>, id: u128) -> int {
    choose|i: int| 0 <= i < rows.len() && (#[trigger] rows[i]).id == id
}

pub open spec fn concert_index_of(rows: Seq<Concert>, id: u128) -> int {
    choose|i: int| 0 <= i < rows.len() && (#[trigger] rows[i]).id == id
}

pub open spec fn artist_ids_unique(rows: Seq<Artist>) -> bool {
    forall|i: int, j: int|
        0 <= i < j < rows.len() ==> (#[trigger] rows[i]).id != (#[trigger] rows[j]).id
}

pub open spec fn concert_ids_unique(rows: Seq<Concert>) -> bool {
    forall|i: int, j: int|
        0 <= i < j < rows.len() ==> (#[trigger] rows[i]).id != (#[trigger] rows[j]).id
}

/// The artist reference: every concert row points at an existing artist.
pub open spec fn concerts_reference_artists(concerts: Seq<Concert>, artists: Seq<Artist>) -> bool {
    forall|i: int|
        0 <= i < concerts.len() ==> has_artist_id(artists, (#[trigger] concerts[i]).artist_id)
}

/// The durable store: the canonical artist and concert rows.
pub struct Database {
    artists: Vec<Artist>,
    concerts: Vec<Concert>,
}

/// A draft of the whole database. Writes run against the draft; `commit`
/// makes them durable, and dropping the draft instead rolls them back.
pub struct Transaction {
    artists: Vec<Artist>,
    concerts: Vec<Concert>,
}

impl Database {
    pub closed spec fn artists(self) -> Seq<Artist> {
        self.artists@
    }

    pub closed spec fn concerts(self) -> Seq<Concert> {
        self.concerts@
    }

    /// Identifiers are unique per table and every concert references an
    /// existing artist; every operation preserves this.
    pub open spec fn wf(self) -> bool {
        &&& artist_ids_unique(self.artists())
        &&& concert_ids_unique(self.concerts())
        &&& concerts_reference_artists(self.concerts(), self.artists())
    }

    pub fn new() -> (db: Database)
        ensures
            db.wf(),
            db.artists() == Seq::<Artist>::empty(),
            db.concerts() == Seq::<Concert>::empty(),
    {
        let db = Database { artists: Vec::new(), concerts: Vec::new() };
        proof {
            assert(db.artists() =~= Seq::<Artist>::empty());
            assert(db.concerts() =~= Seq::<Concert>::empty());
        }
        db
    }

    /// Acquire a transaction: a private draft of the current state.
    pub fn begin(&self) -> (tx: Transaction)
        requires
            self.wf(),
        ensures
            tx.wf(),
            tx.artists() == self.artists(),
            tx.concerts() == self.concerts(),
    {
        Transaction {
            artists: clone_artist_rows(&self.artists),
            concerts: clone_concert_rows(&self.concerts),
        }
    }

    pub fn find_artist_row(&self, id: u128) -> (r: Option<Artist>)
        ensures
            r is Some <==> has_artist_id(self.artists(), id),
            r matches Some(artist) ==> artist.id == id && self.artists().contains(artist),
    {
        match artist_pos(&self.artists, id) {
            Some(i) => {
                let artist = self.artists[i].clone();
                proof {
                    assert(self.artists()[i as int] == artist);
                }
                Some(artist)
            },
            None => None,
        }
    }

    pub fn find_concert_row(&self, id: u128) -> (r: Option<Concert>)
        ensures
            r is Some <==> has_concert_id(self.concerts(), id),
            r matches Some(concert) ==> concert.id == id && self.concerts().contains(concert),
    {
        match concert_pos(&self.concerts, id) {
            Some(i) => {
                let concert = self.concerts[i].clone();
                proof {
                    assert(self.concerts()[i as int] == concert);
                }
                Some(concert)
            },
            None => None,
        }
    }

    /// All artist rows, in insertion order.
    pub fn artist_rows(&self) -> (r: Vec<Artist>)
        ensures
            r@ == self.artists(),
    {
        clone_artist_rows(&self.artists)
    }

    /// All concert rows, reordered by date ascending.
    pub fn concert_rows_by_date(&self) -> (r: Vec<Concert>)
        ensures
            sorted_by_date(r@),
            r@.to_multiset() == self.concerts().to_multiset(),
    {
        let mut out: Vec<Concert> = Vec::new();
        let n = self.concerts.len();
        let mut i: usize = 0;
        proof {
            assert(self.concerts@.subrange(0, 0) =~= Seq::<Concert>::empty());
            assert(out@ =~= Seq::<Concert>::empty());
        }
        while i < n
            invariant
                n == self.concerts@.len(),
                i <= n,
                sorted_by_date(out@),
                out@.to_multiset() == self.concerts@.subrange(0, i as int).to_multiset(),
            decreases n - i,
        {
            let concert = self.concerts[i].clone();
            proof {
                assert(self.concerts@.subrange(0, i + 1) =~= self.concerts@.subrange(
                    0,
                    i as int,
                ).push(self.concerts@[i as int]));
            }
            insert_sorted(&mut out, concert);
            i += 1;
        }
        proof {
            assert(self.concerts@.subrange(0, n as int) =~= self.concerts@);
        }
        out
    }

    /// The concert rows of one artist, reordered by date ascending.
    pub fn concert_rows_for_artist(&self, artist_id: u128) -> (r: Vec<Concert>)
        ensures
            sorted_by_date(r@),
            r@.to_multiset() == self.concerts().filter(
                |c: Concert| c.artist_id == artist_id,
            ).to_multiset(),
    {
        let mut out: Vec<Concert> = Vec::new();
        let n = self.concerts.len();
        let mut i: usize = 0;
        proof {
            assert(self.concerts@.subrange(0, 0) =~= Seq::<Concert>::empty());
            assert(Seq::<Concert>::empty().filter(|c: Concert| c.artist_id == artist_id) =~= Seq::<Concert>::empty());
            assert(out@ =~= Seq::<Concert>::empty());
        }
        while i < n
            invariant
                n == self.concerts@.len(),
                i <= n,
                sorted_by_date(out@),
                out@.to_multiset() == self.concerts@.subrange(0, i as int).filter(
                    (|c: Concert| c.artist_id == artist_id),
                ).to_multiset(),
            decreases n - i,
        {
            let ghost pre = self.concerts@.subrange(0, i as int);
            let ghost here = self.concerts@[i as int];
            proof {
                reveal_with_fuel(Seq::<_>::filter, 2);
                assert(self.concerts@.subrange(0, i + 1) =~= pre.push(here));
                assert(pre.push(here).drop_last() =~= pre);
                assert(pre.push(here).last() == here);
                if here.artist_id == artist_id {
                    assert(pre.push(here).filter(|c: Concert| c.artist_id == artist_id)
                        == pre.filter(|c: Concert| c.artist_id == artist_id).push(here));
                } else {
                    assert(pre.push(here).filter(|c: Concert| c.artist_id == artist_id)
                        == pre.filter(|c: Concert| c.artist_id == artist_id));
                }
            }
            if self.concerts[i].artist_id == artist_id {
                let concert = self.concerts[i].clone();
                insert_sorted(&mut out, concert);
                proof {
                    assert(out@.to_multiset() == pre.filter(
                        |c: Concert| c.artist_id == artist_id,
                    ).to_multiset().insert(here));
                    assert(pre.filter(|c: Concert| c.artist_id == artist_id).push(
                        here,
                    ).to_multiset() == pre.filter(
                        |c: Concert| c.artist_id == artist_id,
                    ).to_multiset().insert(here));
                    assert(out@.to_multiset() == self.concerts@.subrange(0, i + 1).filter(
                        |c: Concert| c.artist_id == artist_id,
                    ).to_multiset());
                }
            } else {
                proof {
                    assert(out@.to_multiset() == self.concerts@.subrange(0, i + 1).filter(
                        |c: Concert| c.artist_id == artist_id,
                    ).to_multiset());
                }
            }
            i += 1;
        }
        proof {
            assert(self.concerts@.subrange(0, n as int) =~= self.concerts@);
        }
        out
    }
}

impl Transaction {
    pub closed spec fn artists(self) -> Seq<Artist> {
        self.artists@
    }

    pub closed spec fn concerts(self) -> Seq<Concert> {
        self.concerts@
    }

    pub open spec fn wf(self) -> bool {
        &&& artist_ids_unique(self.artists())
        &&& concert_ids_unique(self.concerts())
        &&& concerts_reference_artists(self.concerts(), self.artists())
    }

    /// Append an artist row; refused when the identifier is taken.
    pub fn insert_artist_row(&mut self, row: Artist) -> (r: Result<(), StorageError>)
        requires
            old(self).wf(),
        ensures
            final(self).wf(),
            r is Ok <==> !has_artist_id(old(self).artists(), row.id),
            r is Ok ==> final(self).artists() == old(self).artists().push(row) && final(self).concerts() == old(self).concerts(),
            r is Err ==> *final(self) == *old(self) && r == Err::<(), StorageError>(
                StorageError::UniqueViolation,
            ),
    {
        match artist_pos(&self.artists, row.id) {
            Some(_) => Err(StorageError::UniqueViolation),
            None => {
                let ghost before = self.artists@;
                self.artists.push(row);
                proof {
                    assert forall|i: int, j: int|
                        0 <= i < j < self.artists@.len() implies (#[trigger] self.artists@[i]).id
                        != (#[trigger] self.artists@[j]).id by {
                        if j < before.len() {
                            assert(before[i].id != before[j].id);
                        } else {
                            assert(self.artists@[j] == row);
                            assert(!(0 <= i < before.len() && before[i].id == row.id));
                        }
                    }
                    assert forall|i: int|
                        0 <= i < self.concerts@.len() implies has_artist_id(
                        self.artists@,
                        (#[trigger] self.concerts@[i]).artist_id,
                    ) by {
                        let w = choose|k: int|
                            0 <= k < before.len() && (#[trigger] before[k]).id
                                == self.concerts@[i].artist_id;
                        assert(self.artists@[w].id == self.concerts@[i].artist_id);
                    }
                }
                Ok(())
            },
        }
    }

    /// Overwrite the artist row carrying the given identifier; refused
    /// when there is none.
    pub fn update_artist_row(&mut self, row: Artist) -> (r: Result<(), StorageError>)
        requires
            old(self).wf(),
        ensures
            final(self).wf(),
            r is Ok <==> has_artist_id(old(self).artists(), row.id),
            r is Ok ==> final(self).artists() == old(self).artists().update(
                artist_index_of(old(self).artists(), row.id),
                row,
            ) && final(self).concerts() == old(self).concerts(),
            r is Err ==> *final(self) == *old(self) && r == Err::<(), StorageError>(
                StorageError::RowNotFound,
            ),
    {
        match artist_pos(&self.artists, row.id) {
            None => Err(StorageError::RowNotFound),
            Some(i) => {
                let ghost before = self.artists@;
                let ghost chosen = artist_index_of(before, row.id);
                proof {
                    assert(0 <= chosen < before.len() && before[chosen].id == row.id);
                    if i as int != chosen {
                        assert(before[i as int].id == before[chosen].id);
                        assert(false);
                    }
                }
                self.artists.set(i, row);
                proof {
                    assert forall|a: int, b: int|
                        0 <= a < b < self.artists@.len() implies (#[trigger] self.artists@[a]).id
                        != (#[trigger] self.artists@[b]).id by {
                        assert(before[a].id != before[b].id);
                        assert(self.artists@[a].id == before[a].id);
                        assert(self.artists@[b].id == before[b].id);
                    }
                    assert forall|k: int|
                        0 <= k < self.concerts@.len() implies has_artist_id(
                        self.artists@,
                        (#[trigger] self.concerts@[k]).artist_id,
                    ) by {
                        let w = choose|v: int|
                            0 <= v < before.len() && (#[trigger] before[v]).id
                                == self.concerts@[k].artist_id;
                        assert(self.artists@[w].id == before[w].id);
                    }
                }
                Ok(())
            },
        }
    }

    /// Append a concert row; refused when the referenced artist does not
    /// exist or the identifier is taken.
    pub fn insert_concert_row(&mut self, row: Concert) -> (r: Result<(), StorageError>)
        requires
            old(self).wf(),
        ensures
            final(self).wf(),
            r is Ok <==> !has_concert_id(old(self).concerts(), row.id) && has_artist_id(
                old(self).artists(),
                row.artist_id,
            ),
            r is Ok ==> final(self).concerts() == old(self).concerts().push(row) && final(self).artists() == old(self).artists(),
            r is Err ==> *final(self) == *old(self),
            !has_artist_id(old(self).artists(), row.artist_id) ==> r == Err::<(), StorageError>(
                StorageError::ForeignKeyViolation,
            ),
            has_artist_id(old(self).artists(), row.artist_id) && has_concert_id(
                old(self).concerts(),
                row.id,
            ) ==> r == Err::<(), StorageError>(StorageError::UniqueViolation),
    {
        match artist_pos(&self.artists, row.artist_id) {
            None => Err(StorageError::ForeignKeyViolation),
            Some(_) => match concert_pos(&self.concerts, row.id) {
                Some(_) => Err(StorageError::UniqueViolation),
                None => {
                    let ghost before = self.concerts@;
                    self.concerts.push(row);
                    proof {
                        assert forall|i: int, j: int|
                            0 <= i < j < self.concerts@.len() implies (
                        #[trigger] self.concerts@[i]).id != (#[trigger] self.concerts@[j]).id by {
                            if j < before.len() {
                                assert(before[i].id != before[j].id);
                            } else {
                                assert(self.concerts@[j] == row);
                                assert(!(0 <= i < before.len() && before[i].id == row.id));
                            }
                        }
                        assert forall|i: int|
                            0 <= i < self.concerts@.len() implies has_artist_id(
                            self.artists@,
                            (#[trigger] self.concerts@[i]).artist_id,
                        ) by {
                            if i < before.len() {
                                assert(has_artist_id(self.artists@, before[i].artist_id));
                            } else {
                                assert(self.concerts@[i] == row);
                            }
                        }
                    }
                    Ok(())
                },
            },
        }
    }

    /// Overwrite the concert row carrying the given identifier; refused
    /// when there is none or the new artist reference does not exist.
    pub fn update_concert_row(&mut self, row: Concert) -> (r: Result<(), StorageError>)
        requires
            old(self).wf(),
        ensures
            final(self).wf(),
            r is Ok <==> has_concert_id(old(self).concerts(), row.id) && has_artist_id(
                old(self).artists(),
                row.artist_id,
            ),
            r is Ok ==> final(self).concerts() == old(self).concerts().update(
                concert_index_of(old(self).concerts(), row.id),
                row,
            ) && final(self).artists() == old(self).artists(),
            r is Err ==> *final(self) == *old(self),
            !has_concert_id(old(self).concerts(), row.id) ==> r == Err::<(), StorageError>(
                StorageError::RowNotFound,
            ),
            has_concert_id(old(self).concerts(), row.id) && !has_artist_id(
                old(self).artists(),
                row.artist_id,
            ) ==> r == Err::<(), StorageError>(StorageError::ForeignKeyViolation),
    {
        match concert_pos(&self.concerts, row.id) {
            None => Err(StorageError::RowNotFound),
            Some(i) => match artist_pos(&self.artists, row.artist_id) {
                None => Err(StorageError::ForeignKeyViolation),
                Some(_) => {
                    let ghost before = self.concerts@;
                    let ghost chosen = concert_index_of(before, row.id);
                    proof {
                        assert(0 <= chosen < before.len() && before[chosen].id == row.id);
                        if i as int != chosen {
                            assert(before[i as int].id == before[chosen].id);
                            assert(false);
                        }
                    }
                    self.concerts.set(i, row);
                    proof {
                        assert forall|a: int, b: int|
                            0 <= a < b < self.concerts@.len() implies (
                        #[trigger] self.concerts@[a]).id != (#[trigger] self.concerts@[b]).id by {
                            assert(before[a].id != before[b].id);
                            assert(self.concerts@[a].id == before[a].id);
                            assert(self.concerts@[b].id == before[b].id);
                        }
                        assert forall|k: int|
                            0 <= k < self.concerts@.len() implies has_artist_id(
                            self.artists@,
                            (#[trigger] self.concerts@[k]).artist_id,
                        ) by {
                            if k != i as int {
                                assert(has_artist_id(self.artists@, before[k].artist_id));
                            } else {
                                assert(self.concerts@[k] == row);
                            }
                        }
                    }
                    Ok(())
                },
            },
        }
    }

    /// Make the draft durable: the database takes the transaction's
    /// state as a whole.
    pub fn commit(self, db: &mut Database)
        requires
            self.wf(),
        ensures
            final(db).wf(),
            final(db).artists() == self.artists(),
            final(db).concerts() == self.concerts(),
    {
        let Transaction { artists, concerts } = self;
        db.artists = artists;
        db.concerts = concerts;
    }
}

fn clone_artist_rows(rows: &Vec<Artist>) -> (r: Vec<Artist>)
    ensures
        r@ == rows@,
{
    let mut r: Vec<Artist> = Vec::new();
    let n = rows.len();
    let mut i: usize = 0;
    while i < n
        invariant
            n == rows@.len(),
            i <= n,
            r@ =~= rows@.subrange(0, i as int),
        decreases n - i,
    {
        r.push(rows[i].clone());
        i += 1;
    }
    proof {
        assert(rows@.subrange(0, n as int) =~= rows@);
    }
    r
}

fn clone_concert_rows(rows: &Vec<Concert>) -> (r: Vec<Concert>)
    ensures
        r@ == rows@,
{
    let mut r: Vec<Concert> = Vec::new();
    let n = rows.len();
    let mut i: usize = 0;
    while i < n
        invariant
            n == rows@.len(),
            i <= n,
            r@ =~= rows@.subrange(0, i as int),
        decreases n - i,
    {
        r.push(rows[i].clone());
        i += 1;
    }
    proof {
        assert(rows@.subrange(0, n as int) =~= rows@);
    }
    r
}

fn artist_pos(rows: &Vec<Artist>, id: u128) -> (r: Option<usize>)
    ensures
        r is Some <==> has_artist_id(rows@, id),
        r matches Some(i) ==> i < rows@.len() && rows@[i as int].id == id,
{
    let n = rows.len();
    let mut i: usize = 0;
    while i < n
        invariant
            n == rows@.len(),
            i <= n,
            forall|j: int| 0 <= j < i ==> (#[trigger] rows@[j]).id != id,
        decreases n - i,
    {
        if rows[i].id == id {
            return Some(i);
        }
        i += 1;
    }
    None
}

fn concert_pos(rows: &Vec<Concert>, id: u128) -> (r: Option<usize>)
    ensures
        r is Some <==> has_concert_id(rows@, id),
        r matches Some(i) ==> i < rows@.len() && rows@[i as int].id == id,
{
    let n = rows.len();
    let mut i: usize = 0;
    while i < n
        invariant
            n == rows@.len(),
            i <= n,
            forall|j: int| 0 <= j < i ==> (#[trigger] rows@[j]).id != id,
        decreases n - i,
    {
        if rows[i].id == id {
            return Some(i);
        }
        i += 1;
    }
    None
}

/// Insert a row into a date-sorted listing, keeping it sorted.
fn insert_sorted(rows: &mut Vec<Concert>, row: Concert)
    requires
        sorted_by_date(old(rows)@),
    ensures
        sorted_by_date(final(rows)@),
        final(rows)@.to_multiset() == old(rows)@.to_multiset().insert(row),
{
    let n = rows.len();
    let mut k: usize = 0;
    while k < n
        invariant
            n == rows@.len(),
            k <= n,
            sorted_by_date(rows@),
            forall|j: int| 0 <= j < k ==> date_le((#[trigger] rows@[j]).date, row.date),
        ensures
            n == rows@.len(),
            k <= n,
            forall|j: int| 0 <= j < k ==> date_le((#[trigger] rows@[j]).date, row.date),
            k < n ==> !date_le(rows@[k as int].date, row.date),
        decreases n - k,
    {
        let here = rows[k].date;
        if !date_le_of(here, row.date) {
            break;
        }
        k += 1;
    }
    let ghost before = rows@;
    let ghost pos = k as int;
    rows.insert(k, row);
    proof {
        vstd::seq_lib::to_multiset_insert(before, pos, row);
        assert forall|i: int, j: int|
            0 <= i < j < rows@.len() implies date_le(
            (#[trigger] rows@[i]).date,
            (#[trigger] rows@[j]).date,
        ) by {
            if i < pos && j < pos {
                assert(rows@[i] == before[i] && rows@[j] == before[j]);
            } else if i < pos && j == pos {
                assert(rows@[i] == before[i] && rows@[j] == row);
            } else if i < pos && j > pos {
                assert(rows@[i] == before[i] && rows@[j] == before[j - 1]);
            } else if i == pos && j > pos {
                assert(rows@[j] == before[j - 1]);
                assert(pos < before.len() ==> !date_le(before[pos].date, row.date));
                assert(date_le(before[pos].date, before[j - 1].date) || pos == j - 1);
            } else {
                assert(rows@[i] == before[i - 1] && rows@[j] == before[j - 1]);
            }
        }
    }
}

} // verus!
