use vstd::prelude::*;

use crate::error::ServiceError;
use crate::text::same_text;

verus! {

/// A voice profile that uploads can be converted with.
#[derive(Clone, Copy, Debug, PartialEq, Eq, Structural)]
pub enum Artist {
    Cat,
    MaoBuYi,
    WangFei,
    DuiZhang,
    XiaoXiao,
}

/// The short key that names the artist in request paths.
pub open spec fn key_of(a: Artist) -> Seq<char> {
    match a {
        Artist::Cat => "cat"@,
        Artist::MaoBuYi => "mb"@,
        Artist::WangFei => "wf"@,
        Artist::DuiZhang => "dz"@,
        Artist::XiaoXiao => "xx"@,
    }
}

/// The model file of the artist's profile.
pub open spec fn model_of(a: Artist) -> Seq<char> {
    match a {
        Artist::Cat => "models/cat/G_2875.pth"@,
        Artist::MaoBuYi => "models/maobuyi/G_3458.pth"@,
        Artist::WangFei => "models/wf/G_4788.pth"@,
        Artist::DuiZhang => "models/dz/G_5229.pth"@,
        Artist::XiaoXiao => "models/xx/G_2199.pth"@,
    }
}

/// The config file of the artist's profile.
pub open spec fn config_of(a: Artist) -> Seq<char> {
    match a {
        Artist::Cat => "models/cat/config.json"@,
        Artist::MaoBuYi => "models/maobuyi/config.json"@,
        Artist::WangFei => "models/wf/config.json"@,
        Artist::DuiZhang => "models/dz/config.json"@,
        Artist::XiaoXiao => "models/xx/config.json"@,
    }
}

/// The artist that a key names, if any.
pub open spec fn artist_for(key: Seq<char>) -> Option<Artist> {
    if key == "cat"@ {
        Some(Artist::Cat)
    } else if key == "mb"@ {
        Some(Artist::MaoBuYi)
    } else if key == "wf"@ {
        Some(Artist::WangFei)
    } else if key == "dz"@ {
        Some(Artist::DuiZhang)
    } else if key == "xx"@ {
        Some(Artist::XiaoXiao)
    } else {
        None
    }
}

/// What resolving a key yields.
pub open spec fn resolution(key: Seq<char>) -> Result<Artist, ServiceError> {
    match artist_for(key) {
        Some(a) => Ok(a),
        None => Err(ServiceError::UnknownArtist),
    }
}

/// The five artist keys are distinct, non-empty, and free of path
/// separators and of the `_` that joins the parts of a stored name.
pub proof fn lemma_keys_plain()
    ensures
        forall|a: Artist, b: Artist| key_of(a) == key_of(b) ==> a == b,
        forall|a: Artist| #[trigger] key_of(a).len() > 0,
        forall|a: Artist, i: int|
            0 <= i < key_of(a).len() ==> 'a' <= #[trigger] key_of(a)[i] <= 'z',
{
    reveal_strlit("cat");
    reveal_strlit("mb");
    reveal_strlit("wf");
    reveal_strlit("dz");
    reveal_strlit("xx");
    assert forall|a: Artist, b: Artist| key_of(a) == key_of(b) implies a == b by {
        assert(key_of(a)[0] == key_of(b)[0]);
    }
}

/// Every key of the registry resolves to its own profile, whose model and
/// config paths are non-empty; every other string fails with
/// `UnknownArtist`.
pub proof fn lemma_registry_total(key: Seq<char>)
    ensures
        forall|a: Artist| #[trigger] resolution(key_of(a)) == Ok::<Artist, ServiceError>(a),
        forall|a: Artist| #[trigger] model_of(a).len() > 0 && config_of(a).len() > 0,
        (forall|a: Artist| key_of(a) != key) ==> resolution(key) == Err::<Artist, ServiceError>(
            ServiceError::UnknownArtist,
        ),
        (exists|a: Artist| key_of(a) == key) ==> resolution(key) is Ok,
{
    lemma_keys_plain();
    reveal_strlit("models/cat/G_2875.pth");
    reveal_strlit("models/maobuyi/G_3458.pth");
    reveal_strlit("models/wf/G_4788.pth");
    reveal_strlit("models/dz/G_5229.pth");
    reveal_strlit("models/xx/G_2199.pth");
    reveal_strlit("models/cat/config.json");
    reveal_strlit("models/maobuyi/config.json");
    reveal_strlit("models/wf/config.json");
    reveal_strlit("models/dz/config.json");
    reveal_strlit("models/xx/config.json");
    assert forall|a: Artist| #[trigger] resolution(key_of(a)) == Ok::<Artist, ServiceError>(a) by {
        assert(key_of(a) == key_of(Artist::Cat) ==> a == Artist::Cat);
        assert(key_of(a) == key_of(Artist::MaoBuYi) ==> a == Artist::MaoBuYi);
        assert(key_of(a) == key_of(Artist::WangFei) ==> a == Artist::WangFei);
        assert(key_of(a) == key_of(Artist::DuiZhang) ==> a == Artist::DuiZhang);
    }
    if forall|a: Artist| key_of(a) != key {
        assert(key_of(Artist::Cat) != key);
        assert(key_of(Artist::MaoBuYi) != key);
        assert(key_of(Artist::WangFei) != key);
        assert(key_of(Artist::DuiZhang) != key);
        assert(key_of(Artist::XiaoXiao) != key);
    }
}

impl Artist {
    /// Get model path
    pub fn model(&self) -> (r: &'static str)
        ensures
            r@ == model_of(*self),
    {
        match self {
            Artist::Cat => "models/cat/G_2875.pth",
            Artist::MaoBuYi => "models/maobuyi/G_3458.pth",
            Artist::WangFei => "models/wf/G_4788.pth",
            Artist::DuiZhang => "models/dz/G_5229.pth",
            Artist::XiaoXiao => "models/xx/G_2199.pth",
        }
    }

    /// Get config path
    pub fn config(&self) -> (r: &'static str)
        ensures
            r@ == config_of(*self),
    {
        match self {
            Artist::Cat => "models/cat/config.json",
            Artist::MaoBuYi => "models/maobuyi/config.json",
            Artist::WangFei => "models/wf/config.json",
            Artist::DuiZhang => "models/dz/config.json",
            Artist::XiaoXiao => "models/xx/config.json",
        }
    }

    /// The key that names this artist in request paths.
    pub fn key(&self) -> (r: &'static str)
        ensures
            r@ == key_of(*self),
    {
        match self {
            Artist::Cat => "cat",
            Artist::MaoBuYi => "mb",
            Artist::WangFei => "wf",
            Artist::DuiZhang => "dz",
            Artist::XiaoXiao => "xx",
        }
    }

    /// Looks a key up in the registry; an unknown key is an error, not a
    /// panic.
    pub fn resolve(key: &str) -> (r: Result<Artist, ServiceError>)
        ensures
            r == resolution(key@),
    {
        if same_text(key, "cat") {
            Ok(Artist::Cat)
        } else if same_text(key, "mb") {
            Ok(Artist::MaoBuYi)
        } else if same_text(key, "wf") {
            Ok(Artist::WangFei)
        } else if same_text(key, "dz") {
            Ok(Artist::DuiZhang)
        } else if same_text(key, "xx") {
            Ok(Artist::XiaoXiao)
        } else {
            Err(ServiceError::UnknownArtist)
        }
    }
}

} // verus!
