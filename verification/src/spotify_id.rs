//! Item ids and the addresses written from them.

use vstd::prelude::*;
use vstd::string::{StrSliceExecFns, StringExecFns};

verus! {

/// The kinds of item that an id can name.
#[derive(Clone, Copy, Debug, PartialEq, Eq, Structural)]
pub enum SpotifyItemType {
    Album,
    Artist,
    Episode,
    Playlist,
    Show,
    Track,
    Local,
    Unknown,
}

/// The id of an item: a number, and the kind of item that it names.
#[derive(Clone, Copy, Debug, PartialEq, Eq, Structural)]
pub struct SpotifyId {
    pub id: u128,
    pub item_type: SpotifyItemType,
}

/// The number of base-62 digits in which an id is written.
pub const BASE62_LEN: usize = 22;

/// The digits of base 62, in the order of their worth.
pub open spec fn base62_digits() -> Seq<char> {
    "0123456789abcdefghijklmnopqrstuvwxyzABCDEFGHIJKLMNOPQRSTUVWXYZ"@
}

/// The lowest `places` digits of `n` in base 62, the highest of them first.
pub open spec fn base62(n: nat, places: nat) -> Seq<char>
    decreases places,
{
    if places == 0 {
        Seq::empty()
    } else {
        base62(n / 62, (places - 1) as nat).push(base62_digits()[(n % 62) as int])
    }
}

/// The word that stands for a kind of item in an address.
pub open spec fn kind_word(item_type: SpotifyItemType) -> Seq<char> {
    match item_type {
        SpotifyItemType::Album => "album"@,
        SpotifyItemType::Artist => "artist"@,
        SpotifyItemType::Episode => "episode"@,
        SpotifyItemType::Playlist => "playlist"@,
        SpotifyItemType::Show => "show"@,
        SpotifyItemType::Track => "track"@,
        SpotifyItemType::Local => "local"@,
        SpotifyItemType::Unknown => "unknown"@,
    }
}

/// The address of an item: the scheme, the kind and the id in base 62, with
/// colons between them.
pub open spec fn uri_of(id: SpotifyId) -> Seq<char> {
    "spotify:"@ + kind_word(id.item_type) + ":"@ + base62(id.id as nat, BASE62_LEN as nat)
}

impl SpotifyItemType {
    /// The word that stands for this kind of item in an address.
    pub fn name(&self) -> (word: &'static str)
        ensures
            word@ == kind_word(*self),
    {
        match self {
            SpotifyItemType::Album => "album",
            SpotifyItemType::Artist => "artist",
            SpotifyItemType::Episode => "episode",
            SpotifyItemType::Playlist => "playlist",
            SpotifyItemType::Show => "show",
            SpotifyItemType::Track => "track",
            SpotifyItemType::Local => "local",
            SpotifyItemType::Unknown => "unknown",
        }
    }
}

impl SpotifyId {
    /// The id as 22 digits of base 62.
    pub fn to_base62(&self) -> (text: String)
        ensures
            text@ == base62(self.id as nat, BASE62_LEN as nat),
    {
        let digits = "0123456789abcdefghijklmnopqrstuvwxyzABCDEFGHIJKLMNOPQRSTUVWXYZ";
        proof {
            reveal_strlit("0123456789abcdefghijklmnopqrstuvwxyzABCDEFGHIJKLMNOPQRSTUVWXYZ");
        }
        assert(digits@.len() == 62);
        assert(digits.is_ascii());
        let mut quotients: Vec<u128> = Vec::new();
        quotients.push(self.id);
        let mut k: usize = 0;
        while k < BASE62_LEN
            invariant
                0 <= k <= BASE62_LEN,
                quotients@.len() == k + 1,
                quotients@[0] == self.id,
                forall|j: int| 0 <= j < k ==> #[trigger] quotients@[j + 1] == quotients@[j] / 62,
            decreases BASE62_LEN - k,
        {
            let next: u128 = quotients[k] / 62;
            quotients.push(next);
            k += 1;
        }
        let mut text = String::new();
        assert(text@ =~= base62(quotients@[k as int] as nat, 0));
        while k > 0
            invariant
                0 <= k <= BASE62_LEN,
                quotients@.len() == BASE62_LEN + 1,
                quotients@[0] == self.id,
                forall|j: int|
                    0 <= j < BASE62_LEN ==> #[trigger] quotients@[j + 1] == quotients@[j] / 62,
                digits@ == base62_digits(),
                digits@.len() == 62,
                digits.is_ascii(),
                text@ == base62(quotients@[k as int] as nat, (BASE62_LEN - k) as nat),
            decreases k,
        {
            k -= 1;
            let digit: usize = (quotients[k] % 62) as usize;
            assert(quotients@[k + 1] == quotients@[k as int] / 62);
            text.append(digits.substring_ascii(digit, digit + 1));
            assert(digits@.subrange(digit as int, digit + 1) =~= seq![digits@[digit as int]]);
            assert(text@ =~= base62(quotients@[k as int] as nat, (BASE62_LEN - k) as nat));
        }
        text
    }

    /// The address of the item.
    pub fn to_uri(&self) -> (uri: String)
        ensures
            uri@ == uri_of(*self),
    {
        let mut uri = String::from_str("spotify:");
        uri.append(self.item_type.name());
        uri.append(":");
        let digits = self.to_base62();
        uri.append(digits.as_str());
        uri
    }
}

} // verus!
