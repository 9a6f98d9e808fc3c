//! Ledger identities: plain names, and names scoped to a domain.
//!
//! An account is written `name@domain`, an asset `name#domain`. Identities are
//! checked once, where text enters the library; every value of the types
//! below is well formed.

use vstd::prelude::*;
use vstd::string::StringExecFns;

verus! {

/// Characters that no name may hold: the separators of the identity syntax,
/// and white space.
pub open spec fn is_reserved(c: char) -> bool {
    let code = c as u32;
    ||| c == '@'
    ||| c == '#'
    ||| c == '$'
    ||| 0x09 <= code <= 0x0D
    ||| code == 0x20
    ||| code == 0x85
    ||| code == 0xA0
    ||| code == 0x1680
    ||| 0x2000 <= code <= 0x200A
    ||| code == 0x2028
    ||| code == 0x2029
    ||| code == 0x202F
    ||| code == 0x205F
    ||| code == 0x3000
}

/// A name is a non-empty run of characters none of which is reserved.
pub open spec fn is_name(s: Seq<char>) -> bool {
    s.len() > 0 && forall|i: int| 0 <= i < s.len() ==> !is_reserved(#[trigger] s[i])
}

/// The text of a name scoped to a domain.
pub open spec fn scoped_text(name: Seq<char>, separator: char, domain: Seq<char>) -> Seq<char> {
    name + seq![separator] + domain
}

/// `s` reads as a name, the separator, and a domain name.
pub open spec fn is_scoped(s: Seq<char>, separator: char) -> bool {
    exists|k: int|
        0 <= k < s.len() && s[k] == separator && is_name(#[trigger] s.subrange(0, k)) && is_name(
            s.subrange(k + 1, s.len() as int),
        )
}

/// `s` is the text of an account: `name@domain`.
pub open spec fn is_account_text(s: Seq<char>) -> bool {
    is_scoped(s, '@')
}

/// `s` is the text of an asset: `name#domain`.
pub open spec fn is_asset_text(s: Seq<char>) -> bool {
    is_scoped(s, '#')
}

/// Why a text is not an identity.
#[derive(Clone, Copy, Debug, PartialEq, Eq, Structural)]
pub enum IdError {
    /// Not a name: empty, or holding a reserved character.
    MalformedName,
    /// Not of the form `name@domain`.
    MalformedAccount,
    /// Not of the form `name#domain`.
    MalformedAsset,
}

fn reserved(c: char) -> (r: bool)
    ensures
        r == is_reserved(c),
{
    let code: u32 = c as u32;
    c == '@' || c == '#' || c == '$' || (0x09 <= code && code <= 0x0D) || code == 0x20 || code
        == 0x85 || code == 0xA0 || code == 0x1680 || (0x2000 <= code && code <= 0x200A) || code
        == 0x2028 || code == 0x2029 || code == 0x202F || code == 0x205F || code == 0x3000
}

fn chars_of(text: &str) -> (v: Vec<char>)
    ensures
        v@ == text@,
{
    let mut v: Vec<char> = Vec::new();
    for c in it: text.chars()
        invariant
            it.seq() == text@,
            v@ == it.seq().take(it.index() as int),
    {
        v.push(c);
    }
    v
}

/// Whether `chars[from..to]` is a name.
fn name_between(chars: &Vec<char>, from: usize, to: usize) -> (r: bool)
    requires
        from <= to <= chars.len(),
    ensures
        r == is_name(chars@.subrange(from as int, to as int)),
{
    if from == to {
        return false;
    }
    let ghost part = chars@.subrange(from as int, to as int);
    let mut i: usize = from;
    while i < to
        invariant
            from <= i <= to <= chars.len(),
            part == chars@.subrange(from as int, to as int),
            forall|j: int| 0 <= j < i - from ==> !is_reserved(#[trigger] part[j]),
        decreases to - i,
    {
        if reserved(chars[i]) {
            assert(part[i - from] == chars@[i as int]);
            return false;
        }
        assert(part[i - from] == chars@[i as int]);
        i += 1;
    }
    true
}

/// Whether `chars` is a name, `separator`, and a name.
fn scoped(chars: &Vec<char>, separator: char) -> (r: bool)
    requires
        is_reserved(separator),
    ensures
        r == is_scoped(chars@, separator),
{
    let n = chars.len();
    let mut k: usize = 0;
    while k < n && chars[k] != separator
        invariant
            k <= n == chars.len(),
            forall|j: int| 0 <= j < k ==> chars@[j] != separator,
        decreases n - k,
    {
        k += 1;
    }
    if k == n {
        assert forall|m: int| 0 <= m < chars@.len() && chars@[m] == separator implies false by {}
        return false;
    }
    let left = name_between(chars, 0, k);
    let right = name_between(chars, k + 1, n);
    proof {
        let s = chars@;
        if left && right {
            assert(is_name(s.subrange(0, k as int)));
        } else {
            // Any witness `m` has no separator before it, so it is the first
            // separator, which is `k`.
            assert forall|m: int|
                0 <= m < s.len() && s[m] == separator && is_name(#[trigger] s.subrange(0, m))
                    && is_name(s.subrange(m + 1, s.len() as int)) implies false by {
                if m > k {
                    assert(s.subrange(0, m)[k as int] == separator);
                } else if m < k {
                    assert(false);
                }
            }
        }
    }
    left && right
}

/// The identity of a domain: a name.
#[derive(Debug)]
pub struct DomainId {
    text: String,
}

impl View for DomainId {
    type V = Seq<char>;

    closed spec fn view(&self) -> Seq<char> {
        self.text@
    }
}

impl Clone for DomainId {
    fn clone(&self) -> (r: Self)
        ensures
            r == *self,
    {
        proof {
            use_type_invariant(self);
        }
        DomainId { text: self.text.clone() }
    }
}

/// The identity of an account: `name@domain`.
#[derive(Debug)]
pub struct AccountId {
    text: String,
}

/// The identity of an asset: `name#domain`.
#[derive(Debug)]
pub struct AssetId {
    text: String,
}

impl View for AccountId {
    type V = Seq<char>;

    closed spec fn view(&self) -> Seq<char> {
        self.text@
    }
}

impl View for AssetId {
    type V = Seq<char>;

    closed spec fn view(&self) -> Seq<char> {
        self.text@
    }
}

impl Clone for AccountId {
    fn clone(&self) -> (r: Self)
        ensures
            r == *self,
    {
        proof {
            use_type_invariant(self);
        }
        AccountId { text: self.text.clone() }
    }
}

impl Clone for AssetId {
    fn clone(&self) -> (r: Self)
        ensures
            r == *self,
    {
        proof {
            use_type_invariant(self);
        }
        AssetId { text: self.text.clone() }
    }
}

/// Whether `text` is a name.
pub fn valid_name(text: &str) -> (r: bool)
    ensures
        r == is_name(text@),
{
    let chars = chars_of(text);
    let ok = name_between(&chars, 0, chars.len());
    assert(chars@.subrange(0, chars@.len() as int) == chars@);
    ok
}

/// `name`, `separator`, `domain` in one string.
fn join_scoped(name: &str, separator: &str, domain: &str) -> (r: String)
    ensures
        r@ == name@ + separator@ + domain@,
{
    let mut text = name.to_owned();
    text.append(separator);
    text.append(domain);
    text
}

proof fn lemma_scoped_text_is_scoped(name: Seq<char>, separator: char, domain: Seq<char>)
    requires
        is_name(name),
        is_name(domain),
    ensures
        is_scoped(scoped_text(name, separator, domain), separator),
{
    let s = scoped_text(name, separator, domain);
    let k = name.len() as int;
    assert(s.subrange(0, k) == name);
    assert(s.subrange(k + 1, s.len() as int) == domain);
    assert(s[k] == separator);
}

impl DomainId {
    #[verifier::type_invariant]
    spec fn well_formed(self) -> bool {
        is_name(self.text@)
    }

    /// Reads a domain identity; the text must be a name.
    pub fn parse(text: &str) -> (r: Result<DomainId, IdError>)
        ensures
            is_name(text@) ==> r is Ok && r->Ok_0@ == text@,
            !is_name(text@) ==> r == Err::<DomainId, IdError>(IdError::MalformedName),
    {
        if valid_name(text) {
            Ok(DomainId { text: text.to_owned() })
        } else {
            Err(IdError::MalformedName)
        }
    }

    /// The domain of a text that is known to be a name.
    pub(crate) fn known(text: &str) -> (r: DomainId)
        requires
            is_name(text@),
        ensures
            r@ == text@,
    {
        DomainId { text: text.to_owned() }
    }

    /// The identity as text, which is always a name.
    pub fn as_str(&self) -> (s: &str)
        ensures
            s@ == self@,
            is_name(self@),
    {
        proof {
            use_type_invariant(self);
        }
        self.text.as_str()
    }

    /// Whether two identities name the same domain.
    pub fn same(&self, other: &DomainId) -> (r: bool)
        ensures
            r == (self@ == other@),
    {
        self.text == other.text
    }
}

impl AccountId {
    #[verifier::type_invariant]
    spec fn well_formed(self) -> bool {
        is_account_text(self.text@)
    }

    /// Reads an account identity; the text must be `name@domain`.
    pub fn parse(text: &str) -> (r: Result<AccountId, IdError>)
        ensures
            is_account_text(text@) ==> r is Ok && r->Ok_0@ == text@,
            !is_account_text(text@) ==> r == Err::<AccountId, IdError>(IdError::MalformedAccount),
    {
        let chars = chars_of(text);
        if scoped(&chars, '@') {
            Ok(AccountId { text: text.to_owned() })
        } else {
            Err(IdError::MalformedAccount)
        }
    }

    /// The account `name` of `domain`.
    pub fn from_parts(name: &str, domain: &str) -> (r: Result<AccountId, IdError>)
        ensures
            is_name(name@) && is_name(domain@) ==> r is Ok && r->Ok_0@ == scoped_text(
                name@,
                '@',
                domain@,
            ),
            !(is_name(name@) && is_name(domain@)) ==> r == Err::<AccountId, IdError>(
                IdError::MalformedName,
            ),
    {
        if valid_name(name) && valid_name(domain) {
            proof {
                reveal_strlit("@");
                lemma_scoped_text_is_scoped(name@, '@', domain@);
                assert("@"@ == seq!['@']);
            }
            Ok(AccountId { text: join_scoped(name, "@", domain) })
        } else {
            Err(IdError::MalformedName)
        }
    }

    /// The account of two texts that are known to be names.
    pub(crate) fn known(name: &str, domain: &str) -> (r: AccountId)
        requires
            is_name(name@),
            is_name(domain@),
        ensures
            r@ == scoped_text(name@, '@', domain@),
    {
        proof {
            reveal_strlit("@");
            lemma_scoped_text_is_scoped(name@, '@', domain@);
            assert("@"@ == seq!['@']);
        }
        AccountId { text: join_scoped(name, "@", domain) }
    }

    /// The identity as text, which is always of the form `name@domain`.
    pub fn as_str(&self) -> (s: &str)
        ensures
            s@ == self@,
            is_account_text(self@),
    {
        proof {
            use_type_invariant(self);
        }
        self.text.as_str()
    }

    /// Whether two identities name the same account.
    pub fn same(&self, other: &AccountId) -> (r: bool)
        ensures
            r == (self@ == other@),
    {
        self.text == other.text
    }
}

impl AssetId {
    #[verifier::type_invariant]
    spec fn well_formed(self) -> bool {
        is_asset_text(self.text@)
    }

    /// Reads an asset identity; the text must be `name#domain`.
    pub fn parse(text: &str) -> (r: Result<AssetId, IdError>)
        ensures
            is_asset_text(text@) ==> r is Ok && r->Ok_0@ == text@,
            !is_asset_text(text@) ==> r == Err::<AssetId, IdError>(IdError::MalformedAsset),
    {
        let chars = chars_of(text);
        if scoped(&chars, '#') {
            Ok(AssetId { text: text.to_owned() })
        } else {
            Err(IdError::MalformedAsset)
        }
    }

    /// The asset `name` of `domain`.
    pub fn from_parts(name: &str, domain: &str) -> (r: Result<AssetId, IdError>)
        ensures
            is_name(name@) && is_name(domain@) ==> r is Ok && r->Ok_0@ == scoped_text(
                name@,
                '#',
                domain@,
            ),
            !(is_name(name@) && is_name(domain@)) ==> r == Err::<AssetId, IdError>(
                IdError::MalformedName,
            ),
    {
        if valid_name(name) && valid_name(domain) {
            proof {
                reveal_strlit("#");
                lemma_scoped_text_is_scoped(name@, '#', domain@);
                assert("#"@ == seq!['#']);
            }
            Ok(AssetId { text: join_scoped(name, "#", domain) })
        } else {
            Err(IdError::MalformedName)
        }
    }

    /// The asset of two texts that are known to be names.
    pub(crate) fn known(name: &str, domain: &str) -> (r: AssetId)
        requires
            is_name(name@),
            is_name(domain@),
        ensures
            r@ == scoped_text(name@, '#', domain@),
    {
        proof {
            reveal_strlit("#");
            lemma_scoped_text_is_scoped(name@, '#', domain@);
            assert("#"@ == seq!['#']);
        }
        AssetId { text: join_scoped(name, "#", domain) }
    }

    /// The identity as text, which is always of the form `name#domain`.
    pub fn as_str(&self) -> (s: &str)
        ensures
            s@ == self@,
            is_asset_text(self@),
    {
        proof {
            use_type_invariant(self);
        }
        self.text.as_str()
    }

    /// Whether two identities name the same asset.
    pub fn same(&self, other: &AssetId) -> (r: bool)
        ensures
            r == (self@ == other@),
    {
        self.text == other.text
    }
}

} // verus!
