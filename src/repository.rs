use vstd::prelude::*;
use crate::error::RepoError;
use crate::text::{first_group, regex_group_one};

verus! {

/// The player slug inside a card token slug: the part before the birth date's closing dash.
pub open spec fn player_slug_of(token_slug: Seq<char>) -> Option<Seq<char>> {
    regex_group_one("([a-z].*)(-[0-9].*-){1}"@, token_slug)
}

/// The text of the error for a token slug that holds no player slug.
pub open spec fn bad_token_text(token_slug: Seq<char>) -> Seq<char> {
    "no player slug in token "@ + token_slug
}

/// The player repository's own logic; the transport lives with the caller.
pub struct PlayerRepoImpl {}

impl PlayerRepoImpl {
    pub fn new() -> (r: PlayerRepoImpl) {
        PlayerRepoImpl {  }
    }

    /// The player slug of a card token slug (`kz-okpala-19990428-2022-rare-21` holds
    /// `kz-okpala-19990428`), or a read error when it holds none.
    pub fn parse_player_slug(&self, token_slug: &str) -> (r: Result<String, RepoError>)
        ensures
            player_slug_of(token_slug@) matches Some(s) ==> r matches Ok(v) && v@ == s,
            player_slug_of(token_slug@) is None ==> (r matches Err(RepoError::Read(m)) && m@
                == bad_token_text(token_slug@)),
    {
        match first_group("([a-z].*)(-[0-9].*-){1}", token_slug) {
            Some(s) => Ok(s),
            None => Err(RepoError::Read(String::from_str("no player slug in token ").concat(token_slug))),
        }
    }

    /// The player slugs of a page of token slugs, in order; the first token that holds none
    /// fails the whole page.
    pub fn player_slugs(&self, token_slugs: &Vec<String>) -> (r: Result<Vec<String>, RepoError>)
        ensures
            (forall|k: int| 0 <= k < token_slugs@.len() ==> (#[trigger] player_slug_of(token_slugs@[k]@)) is Some)
                <==> r is Ok,
            r matches Ok(v) ==> v@.len() == token_slugs@.len() && forall|k: int|
                0 <= k < v@.len() ==> player_slug_of(token_slugs@[k]@) == Some(#[trigger] v@[k]@),
    {
        let mut out: Vec<String> = Vec::new();
        let mut i: usize = 0;
        while i < token_slugs.len()
            invariant
                i <= token_slugs@.len(),
                out@.len() == i,
                forall|k: int| 0 <= k < i ==> player_slug_of(token_slugs@[k]@) == Some(#[trigger] out@[k]@),
            decreases token_slugs@.len() - i,
        {
            match self.parse_player_slug(token_slugs[i].as_str()) {
                Ok(s) => {
                    out.push(s);
                },
                Err(e) => {
                    assert(player_slug_of(token_slugs@[i as int]@) is None);
                    return Err(e);
                },
            }
            i = i + 1;
        }
        assert forall|k: int| 0 <= k < token_slugs@.len() implies (#[trigger] player_slug_of(
            token_slugs@[k]@,
        )) is Some by {
            assert(player_slug_of(token_slugs@[k]@) == Some(out@[k]@));
        }
        Ok(out)
    }
}

/// The name of the file that holds the collection `name`.
pub fn collection_file_name(name: &str) -> (r: String)
    ensures
        r@ == name@ + ".json"@,
{
    String::from_str(name).concat(".json")
}

} // verus!
