//! The question that a client asks about mods: which mods it names.

use crate::text::{split, split_spec};
use vstd::prelude::*;

verus! {

/// Query name under which a request names the mods that it asks about.
pub const MODS_KEY: &'static str = "mods";

/// Largest number of mods that one request may ask about.
pub const MAX_MODS: usize = 300;

/// Why a question about mods is not answered; status 400 in either case.
#[derive(Clone, Copy, Debug, PartialEq, Eq, Structural)]
pub enum ModQueryError {
    /// The request names no mods.
    NoQuery,
    /// The request names more than [`MAX_MODS`] mods.
    TooLong,
}

impl ModQueryError {
    /// HTTP status that reports the error.
    pub fn status(self) -> (code: u16)
        ensures
            code == 400,
    {
        400
    }

    /// The text that reports the error.
    pub fn message(self) -> (text: &'static str)
        ensures
            text@ == match self {
                ModQueryError::NoQuery => "No query included in request"@,
                ModQueryError::TooLong => "Query too long"@,
            },
    {
        match self {
            ModQueryError::NoQuery => "No query included in request",
            ModQueryError::TooLong => "Query too long",
        }
    }
}

/// `items` without the repetitions: of equal items, the first stays.
pub open spec fn distinct(items: Seq<Seq<char>>) -> Seq<Seq<char>>
    decreases items.len(),
{
    if items.len() == 0 {
        items
    } else {
        let front = distinct(items.drop_last());
        if front.contains(items.last()) {
            front
        } else {
            front.push(items.last())
        }
    }
}

/// The mods that a request asks about: the distinct names between the `+`
/// signs of `mods`, the value of the query pair of that name.
pub open spec fn requested_mods_spec(mods: Option<Seq<char>>) -> Result<
    Seq<Seq<char>>,
    ModQueryError,
> {
    match mods {
        None => Err(ModQueryError::NoQuery),
        Some(value) => {
            let names = distinct(split_spec(value, '+'));
            if names.len() > MAX_MODS {
                Err(ModQueryError::TooLong)
            } else {
                Ok(names)
            }
        },
    }
}

/// More items have at least as many distinct ones.
pub proof fn lemma_distinct_grows(items: Seq<Seq<char>>, n: int)
    requires
        0 <= n <= items.len(),
    ensures
        distinct(items.take(n)).len() <= distinct(items).len(),
    decreases items.len() - n,
{
    if n == items.len() {
        assert(items.take(n) =~= items);
    } else {
        lemma_distinct_grows(items, n + 1);
        assert(items.take(n + 1).drop_last() =~= items.take(n));
    }
}

/// Whether `names` holds `name`.
fn holds(names: &Vec<&str>, name: &str) -> (found: bool)
    ensures
        found == names.deep_view().contains(name@),
{
    let mut i: usize = 0;
    while i < names.len()
        invariant
            i <= names.len(),
            forall|j: int| 0 <= j < i ==> names.deep_view()[j] != name@,
        decreases names.len() - i,
    {
        assert(names.deep_view()[i as int] == names@[i as int]@);
        if names[i].eq(name) {
            return true;
        }
        i = i + 1;
    }
    false
}

/// Reads the mods that a request asks about from `mods`, the value of the
/// query pair of that name, if the request has one.
pub fn requested_mods<'a>(mods: Option<&'a str>) -> (names: Result<Vec<&'a str>, ModQueryError>)
    ensures
        match names {
            Ok(list) => requested_mods_spec(
                match mods {
                    Some(value) => Some(value@),
                    None => None,
                },
            ) == Ok::<Seq<Seq<char>>, ModQueryError>(list.deep_view()),
            Err(error) => requested_mods_spec(
                match mods {
                    Some(value) => Some(value@),
                    None => None,
                },
            ) == Err::<Seq<Seq<char>>, ModQueryError>(error),
        },
{
    let value = match mods {
        Some(value) => value,
        None => {
            return Err(ModQueryError::NoQuery);
        },
    };
    let pieces = split(value, '+');
    let ghost all = pieces.deep_view();
    let mut names: Vec<&'a str> = Vec::new();
    let mut i: usize = 0;
    assert(all.take(0) =~= Seq::<Seq<char>>::empty());
    while i < pieces.len()
        invariant
            i <= pieces.len(),
            mods == Some(value),
            all == pieces.deep_view(),
            all == split_spec(value@, '+'),
            names.deep_view() == distinct(all.take(i as int)),
            names.len() <= MAX_MODS,
        decreases pieces.len() - i,
    {
        let ghost before = names.deep_view();
        assert(all.take(i + 1).drop_last() =~= all.take(i as int));
        assert(all.take(i + 1).last() == pieces@[i as int]@);
        if !holds(&names, pieces[i]) {
            if names.len() == MAX_MODS {
                proof {
                    lemma_distinct_grows(all, i + 1);
                    assert(distinct(all.take(i + 1)) == before.push(pieces@[i as int]@));
                }
                return Err(ModQueryError::TooLong);
            }
            names.push(pieces[i]);
            assert(names.deep_view() =~= before.push(pieces@[i as int]@));
        }
        i = i + 1;
    }
    assert(all.take(pieces.len() as int) =~= all);
    Ok(names)
}

} // verus!
