//! The claims about an end user and about an authentication event, as
//! they are read from a JSON document.

use vstd::prelude::*;

use crate::json::{
    flag_member, integer_member, json_flag, json_integer, json_member_names, json_object,
    json_text, member_names, object_member, text_member,
};
use crate::jwt::optional_string;
use crate::text::{owned, str_eq, text_views};
use crate::types::{LanguageTag, SubjectIdentifier};

verus! {

/// A claim that a verifier may find missing.
#[derive(Clone, Copy, Debug, PartialEq, Eq, Structural)]
pub enum ClaimName {
    /// `iss`.
    Issuer,
    /// `sub`.
    Subject,
    /// `aud`.
    Audience,
    /// `exp`.
    Expiration,
    /// `iat`.
    IssuedAt,
    /// `auth_time`.
    AuthTime,
    /// `nonce`.
    Nonce,
    /// `acr`.
    AuthContextRef,
}

/// The language tag that the member name `name` carries for the claim
/// `base`: `Some(None)` for the bare name, `Some(Some(tag))` for the name
/// followed by `#` and a tag, `None` for a name of another claim. The name is
/// cut at its first `#` only.
pub open spec fn language_of(name: Seq<char>, base: Seq<char>) -> Option<Option<Seq<char>>> {
    if name == base {
        Some(None)
    } else if name.len() > base.len() && name.subrange(0, base.len() as int) == base
        && name[base.len() as int] == '#' {
        Some(Some(name.subrange(base.len() as int + 1, name.len() as int)))
    } else {
        None
    }
}

/// The values of the claim `base` among the members `names` of `doc`, each
/// with its language tag, in the order of `names`.
pub open spec fn localized_entries(doc: Seq<u8>, base: Seq<char>, names: Seq<Seq<char>>) -> Seq<
    (Option<Seq<char>>, Seq<char>),
>
    decreases names.len(),
{
    if names.len() == 0 {
        Seq::empty()
    } else {
        let rest = localized_entries(doc, base, names.drop_last());
        match (language_of(names.last(), base), json_text(doc, names.last())) {
            (Some(tag), Some(value)) => rest.push((tag, value)),
            _ => rest,
        }
    }
}

/// The values of the claim `base` in `doc`, each with its language tag.
pub open spec fn localized_claim(doc: Seq<u8>, base: Seq<char>) -> Seq<
    (Option<Seq<char>>, Seq<char>),
> {
    match json_member_names(doc) {
        Some(names) => localized_entries(doc, base, names),
        None => Seq::empty(),
    }
}

/// The view of an optional language tag.
pub open spec fn tag_view(tag: Option<LanguageTag>) -> Option<Seq<char>> {
    match tag {
        Some(t) => Some(t@),
        None => None,
    }
}

/// The view of an optional borrowed language tag.
pub open spec fn tag_ref_view(tag: Option<&LanguageTag>) -> Option<Seq<char>> {
    match tag {
        Some(t) => Some(t@),
        None => None,
    }
}

/// The views of the entries of a localized claim.
pub open spec fn entry_views(entries: Seq<(Option<LanguageTag>, String)>) -> Seq<
    (Option<Seq<char>>, Seq<char>),
> {
    Seq::new(
        entries.len(),
        |i: int| (tag_view(entries[i].0), entries[i].1@),
    )
}

/// Reads the language tag that a member name carries for a claim.
pub fn language_tag(name: &str, base: &str) -> (r: Option<Option<LanguageTag>>)
    ensures
        match r {
            Some(Some(tag)) => language_of(name@, base@) == Some(Some(tag@)),
            Some(None) => language_of(name@, base@) == Some(None::<Seq<char>>),
            None => language_of(name@, base@) is None,
        },
{
    if str_eq(name, base) {
        return Some(None);
    }
    let n = name.unicode_len();
    let b = base.unicode_len();
    if n > b {
        let head = name.substring_char(0, b);
        if str_eq(head, base) && name.get_char(b) == '#' {
            let tag = name.substring_char(b + 1, n);
            return Some(Some(LanguageTag::new(owned(tag))));
        }
    }
    None
}

/// A claim that may be given in several languages: its values, each with
/// the language tag it was given under; the value without a tag is the
/// default.
#[derive(Debug, PartialEq, Eq)]
pub struct LocalizedClaim {
    entries: Vec<(Option<LanguageTag>, String)>,
}

impl View for LocalizedClaim {
    type V = Seq<(Option<Seq<char>>, Seq<char>)>;

    closed spec fn view(&self) -> Seq<(Option<Seq<char>>, Seq<char>)> {
        entry_views(self.entries@)
    }
}

/// The first value of `entries` given under the language `tag`.
pub open spec fn value_for(entries: Seq<(Option<Seq<char>>, Seq<char>)>, tag: Option<Seq<char>>)
    -> Option<Seq<char>>
    decreases entries.len(),
{
    if entries.len() == 0 {
        None
    } else if entries[0].0 == tag {
        Some(entries[0].1)
    } else {
        value_for(entries.drop_first(), tag)
    }
}

impl LocalizedClaim {
    /// A claim without a value.
    pub fn new() -> (r: Self)
        ensures
            r@ == Seq::<(Option<Seq<char>>, Seq<char>)>::empty(),
    {
        let r = LocalizedClaim { entries: Vec::new() };
        assert(r@ =~= Seq::empty());
        r
    }

    /// Adds a value under a language tag, or the default value where no tag
    /// is given.
    pub fn insert(&mut self, tag: Option<LanguageTag>, value: String)
        ensures
            final(self)@ == old(self)@.push((tag_view(tag), value@)),
    {
        let ghost before = self@;
        let ghost entry = (tag_view(tag), value@);
        self.entries.push((tag, value));
        assert(self@ =~= before.push(entry));
    }

    /// The number of values.
    pub fn len(&self) -> (r: usize)
        ensures
            r == self@.len(),
    {
        self.entries.len()
    }

    /// The first value given under the language `tag`, or the default value
    /// where `tag` is `None`.
    pub fn get(&self, tag: Option<&LanguageTag>) -> (r: Option<&String>)
        ensures
            match r {
                Some(v) => value_for(self@, tag_ref_view(tag)) == Some(v@),
                None => value_for(self@, tag_ref_view(tag)) is None,
            },
    {
        let ghost wanted: Option<Seq<char>> = tag_ref_view(tag);
        let n = self.entries.len();
        let mut i: usize = 0;
        assert(self@.subrange(0, n as int) =~= self@);
        while i < n
            invariant
                n == self.entries@.len(),
                n == self@.len(),
                i <= n,
                wanted == tag_ref_view(tag),
                value_for(self@, wanted) == value_for(self@.subrange(i as int, n as int), wanted),
            decreases n - i,
        {
            let same = match (&self.entries[i].0, tag) {
                (Some(a), Some(b)) => str_eq(a.as_str(), b.as_str()),
                (None, None) => true,
                _ => false,
            };
            proof {
                let rest = self@.subrange(i as int, n as int);
                assert(rest[0] == self@[i as int]);
                assert(rest.drop_first() =~= self@.subrange(i as int + 1, n as int));
            }
            if same {
                return Some(&self.entries[i].1);
            }
            i = i + 1;
        }
        None
    }

    /// Collects the values of the claim `base` from the members `names` of
    /// `doc`.
    pub(crate) fn from_json(doc: &[u8], names: &Vec<String>, base: &str) -> (r: Self)
        ensures
            r@ == localized_entries(doc@, base@, text_views(names@)),
    {
        let mut claim = LocalizedClaim::new();
        let n = names.len();
        let mut i: usize = 0;
        assert(text_views(names@).take(0) =~= Seq::empty());
        while i < n
            invariant
                n == names@.len(),
                i <= n,
                claim@ == localized_entries(doc@, base@, text_views(names@).take(i as int)),
            decreases n - i,
        {
            proof {
                let all = text_views(names@);
                assert(all.take(i as int + 1).drop_last() =~= all.take(i as int));
                assert(all.take(i as int + 1).last() == names@[i as int]@);
            }
            match language_tag(names[i].as_str(), base) {
                Some(tag) => match text_member(doc, names[i].as_str()) {
                    Some(value) => claim.insert(tag, value),
                    None => {},
                },
                None => {},
            }
            i = i + 1;
        }
        assert(text_views(names@).take(n as int) =~= text_views(names@));
        claim
    }
}

impl Clone for LocalizedClaim {
    fn clone(&self) -> (r: Self)
        ensures
            r@ == self@,
    {
        let mut claim = LocalizedClaim::new();
        let n = self.entries.len();
        let mut i: usize = 0;
        assert(self@.take(0) =~= Seq::empty());
        while i < n
            invariant
                n == self.entries@.len(),
                i <= n,
                claim@ == self@.take(i as int),
            decreases n - i,
        {
            let tag = match &self.entries[i].0 {
                Some(t) => Some(t.clone()),
                None => None,
            };
            claim.insert(tag, self.entries[i].1.clone());
            assert(claim@ =~= self@.take(i as int + 1));
            i = i + 1;
        }
        assert(self@.take(n as int) =~= self@);
        claim
    }
}

/// Copies an optional string.
fn clone_text(t: &Option<String>) -> (r: Option<String>)
    ensures
        optional_string(r) == optional_string(*t),
{
    match t {
        Some(s) => Some(s.clone()),
        None => None,
    }
}

/// The names of the members of `doc`, or none where it is not an object.
fn names_of(doc: &[u8]) -> (r: Vec<String>)
    ensures
        text_views(r@) == match json_member_names(doc@) {
            Some(names) => names,
            None => Seq::empty(),
        },
{
    match member_names(doc) {
        Some(names) => names,
        None => {
            let names: Vec<String> = Vec::new();
            assert(text_views(names@) =~= Seq::empty());
            names
        },
    }
}

/// What an address claim holds, as plain values.
pub struct AddressClaimView {
    /// The full mailing address, formatted for display.
    pub formatted: Seq<(Option<Seq<char>>, Seq<char>)>,
    /// The street address, which may span several lines.
    pub street_address: Seq<(Option<Seq<char>>, Seq<char>)>,
    /// The city or locality.
    pub locality: Option<Seq<char>>,
    /// The state, province, prefecture or region.
    pub region: Option<Seq<char>>,
    /// The zip code or postal code.
    pub postal_code: Option<Seq<char>>,
    /// The country name.
    pub country: Option<Seq<char>>,
}

/// The address that the JSON object `doc` describes.
pub open spec fn address_of_json(doc: Seq<u8>) -> AddressClaimView {
    AddressClaimView {
        formatted: localized_claim(doc, "formatted"@),
        street_address: localized_claim(doc, "street_address"@),
        locality: json_text(doc, "locality"@),
        region: json_text(doc, "region"@),
        postal_code: json_text(doc, "postal_code"@),
        country: json_text(doc, "country"@),
    }
}

/// The postal address of an end user.
#[derive(Debug, PartialEq, Eq)]
pub struct AddressClaim {
    formatted: LocalizedClaim,
    street_address: LocalizedClaim,
    locality: Option<String>,
    region: Option<String>,
    postal_code: Option<String>,
    country: Option<String>,
}

impl View for AddressClaim {
    type V = AddressClaimView;

    closed spec fn view(&self) -> AddressClaimView {
        AddressClaimView {
            formatted: self.formatted@,
            street_address: self.street_address@,
            locality: optional_string(self.locality),
            region: optional_string(self.region),
            postal_code: optional_string(self.postal_code),
            country: optional_string(self.country),
        }
    }
}

impl AddressClaim {
    /// Reads an address from the JSON object that describes it.
    pub(crate) fn from_json(doc: &[u8]) -> (r: Self)
        ensures
            r@ == address_of_json(doc@),
    {
        let names = names_of(doc);
        AddressClaim {
            formatted: LocalizedClaim::from_json(doc, &names, "formatted"),
            street_address: LocalizedClaim::from_json(doc, &names, "street_address"),
            locality: text_member(doc, "locality"),
            region: text_member(doc, "region"),
            postal_code: text_member(doc, "postal_code"),
            country: text_member(doc, "country"),
        }
    }

    /// The full mailing address, formatted for display.
    pub fn formatted(&self) -> (r: &LocalizedClaim)
        ensures
            r@ == self@.formatted,
    {
        &self.formatted
    }

    /// The street address, which may span several lines.
    pub fn street_address(&self) -> (r: &LocalizedClaim)
        ensures
            r@ == self@.street_address,
    {
        &self.street_address
    }

    /// The city or locality.
    pub fn locality(&self) -> (r: Option<&String>)
        ensures
            match r {
                Some(t) => self@.locality == Some(t@),
                None => self@.locality is None,
            },
    {
        self.locality.as_ref()
    }

    /// The state, province, prefecture or region.
    pub fn region(&self) -> (r: Option<&String>)
        ensures
            match r {
                Some(t) => self@.region == Some(t@),
                None => self@.region is None,
            },
    {
        self.region.as_ref()
    }

    /// The zip code or postal code.
    pub fn postal_code(&self) -> (r: Option<&String>)
        ensures
            match r {
                Some(t) => self@.postal_code == Some(t@),
                None => self@.postal_code is None,
            },
    {
        self.postal_code.as_ref()
    }

    /// The country name.
    pub fn country(&self) -> (r: Option<&String>)
        ensures
            match r {
                Some(t) => self@.country == Some(t@),
                None => self@.country is None,
            },
    {
        self.country.as_ref()
    }

}

impl Clone for AddressClaim {
    fn clone(&self) -> (r: Self)
        ensures
            r@ == self@,
    {
        AddressClaim {
            formatted: self.formatted.clone(),
            street_address: self.street_address.clone(),
            locality: clone_text(&self.locality),
            region: clone_text(&self.region),
            postal_code: clone_text(&self.postal_code),
            country: clone_text(&self.country),
        }
    }
}

/// What a set of standard claims holds, as plain values.
pub struct StandardClaimsView {
    /// The subject identifier (`sub`).
    pub sub: Seq<char>,
    /// The end user's full name.
    pub name: Seq<(Option<Seq<char>>, Seq<char>)>,
    /// The end user's given names.
    pub given_name: Seq<(Option<Seq<char>>, Seq<char>)>,
    /// The end user's surnames.
    pub family_name: Seq<(Option<Seq<char>>, Seq<char>)>,
    /// The end user's middle names.
    pub middle_name: Seq<(Option<Seq<char>>, Seq<char>)>,
    /// The end user's casual name.
    pub nickname: Seq<(Option<Seq<char>>, Seq<char>)>,
    /// The shorthand name by which the end user wishes to be referred to.
    pub preferred_username: Option<Seq<char>>,
    /// URL of the end user's profile page.
    pub profile: Seq<(Option<Seq<char>>, Seq<char>)>,
    /// URL of the end user's profile picture.
    pub picture: Seq<(Option<Seq<char>>, Seq<char>)>,
    /// URL of the end user's web page or blog.
    pub website: Seq<(Option<Seq<char>>, Seq<char>)>,
    /// The end user's preferred e-mail address.
    pub email: Option<Seq<char>>,
    /// Whether the provider has verified the e-mail address.
    pub email_verified: Option<bool>,
    /// The end user's gender.
    pub gender: Option<Seq<char>>,
    /// The end user's birthday.
    pub birthdate: Option<Seq<char>>,
    /// The end user's time zone.
    pub zoneinfo: Option<Seq<char>>,
    /// The end user's locale.
    pub locale: Option<Seq<char>>,
    /// The end user's preferred telephone number.
    pub phone_number: Option<Seq<char>>,
    /// Whether the provider has verified the telephone number.
    pub phone_number_verified: Option<bool>,
    /// When the end user's information was last updated, in seconds since the epoch.
    pub updated_at: Option<i64>,
    /// The postal address (`address`), where there is one.
    pub address: Option<AddressClaimView>,
}

/// The address claim of `doc`, where it has one.
pub open spec fn address_claim_of(doc: Seq<u8>) -> Option<AddressClaimView> {
    match json_object(doc, "address"@) {
        Some(inner) => Some(address_of_json(inner)),
        None => None,
    }
}

/// The standard claims that the JSON object `doc` holds; `None` where it has
/// no string `sub`.
pub open spec fn standard_claims_of(doc: Seq<u8>) -> Option<StandardClaimsView> {
    match json_text(doc, "sub"@) {
        None => None,
        Some(sub) => Some(
            StandardClaimsView {
                sub,
                name: localized_claim(doc, "name"@),
                given_name: localized_claim(doc, "given_name"@),
                family_name: localized_claim(doc, "family_name"@),
                middle_name: localized_claim(doc, "middle_name"@),
                nickname: localized_claim(doc, "nickname"@),
                preferred_username: json_text(doc, "preferred_username"@),
                profile: localized_claim(doc, "profile"@),
                picture: localized_claim(doc, "picture"@),
                website: localized_claim(doc, "website"@),
                email: json_text(doc, "email"@),
                email_verified: json_flag(doc, "email_verified"@),
                gender: json_text(doc, "gender"@),
                birthdate: json_text(doc, "birthdate"@),
                zoneinfo: json_text(doc, "zoneinfo"@),
                locale: json_text(doc, "locale"@),
                phone_number: json_text(doc, "phone_number"@),
                phone_number_verified: json_flag(doc, "phone_number_verified"@),
                updated_at: json_integer(doc, "updated_at"@),
                address: address_claim_of(doc),
            },
        ),
    }
}

/// The standard claims about an end user. Only the subject identifier is
/// required.
#[derive(Debug, PartialEq, Eq)]
pub struct StandardClaims {
    sub: SubjectIdentifier,
    name: LocalizedClaim,
    given_name: LocalizedClaim,
    family_name: LocalizedClaim,
    middle_name: LocalizedClaim,
    nickname: LocalizedClaim,
    preferred_username: Option<String>,
    profile: LocalizedClaim,
    picture: LocalizedClaim,
    website: LocalizedClaim,
    email: Option<String>,
    email_verified: Option<bool>,
    gender: Option<String>,
    birthdate: Option<String>,
    zoneinfo: Option<String>,
    locale: Option<String>,
    phone_number: Option<String>,
    phone_number_verified: Option<bool>,
    updated_at: Option<i64>,
    address: Option<AddressClaim>,
}

impl View for StandardClaims {
    type V = StandardClaimsView;

    closed spec fn view(&self) -> StandardClaimsView {
        StandardClaimsView {
            sub: self.sub@,
            name: self.name@,
            given_name: self.given_name@,
            family_name: self.family_name@,
            middle_name: self.middle_name@,
            nickname: self.nickname@,
            preferred_username: optional_string(self.preferred_username),
            profile: self.profile@,
            picture: self.picture@,
            website: self.website@,
            email: optional_string(self.email),
            email_verified: self.email_verified,
            gender: optional_string(self.gender),
            birthdate: optional_string(self.birthdate),
            zoneinfo: optional_string(self.zoneinfo),
            locale: optional_string(self.locale),
            phone_number: optional_string(self.phone_number),
            phone_number_verified: self.phone_number_verified,
            updated_at: self.updated_at,
            address: match self.address {
                Some(a) => Some(a@),
                None => None,
            },
        }
    }
}

impl StandardClaims {
    /// Reads the standard claims from the JSON object that holds them.
    /// Fails only where the object has no string `sub`.
    pub(crate) fn from_json(doc: &[u8]) -> (r: Option<Self>)
        ensures
            match r {
                Some(c) => standard_claims_of(doc@) == Some(c@),
                None => standard_claims_of(doc@) is None,
            },
    {
        let sub = match text_member(doc, "sub") {
            Some(s) => SubjectIdentifier::new(s),
            None => return None,
        };
        let names = names_of(doc);
        let address = match object_member(doc, "address") {
            Some(inner) => Some(AddressClaim::from_json(inner.as_slice())),
            None => None,
        };
        Some(
            StandardClaims {
                sub,
                name: LocalizedClaim::from_json(doc, &names, "name"),
                given_name: LocalizedClaim::from_json(doc, &names, "given_name"),
                family_name: LocalizedClaim::from_json(doc, &names, "family_name"),
                middle_name: LocalizedClaim::from_json(doc, &names, "middle_name"),
                nickname: LocalizedClaim::from_json(doc, &names, "nickname"),
                preferred_username: text_member(doc, "preferred_username"),
                profile: LocalizedClaim::from_json(doc, &names, "profile"),
                picture: LocalizedClaim::from_json(doc, &names, "picture"),
                website: LocalizedClaim::from_json(doc, &names, "website"),
                email: text_member(doc, "email"),
                email_verified: flag_member(doc, "email_verified"),
                gender: text_member(doc, "gender"),
                birthdate: text_member(doc, "birthdate"),
                zoneinfo: text_member(doc, "zoneinfo"),
                locale: text_member(doc, "locale"),
                phone_number: text_member(doc, "phone_number"),
                phone_number_verified: flag_member(doc, "phone_number_verified"),
                updated_at: integer_member(doc, "updated_at"),
                address,
            },
        )
    }

    /// The subject identifier.
    pub fn subject(&self) -> (r: &SubjectIdentifier)
        ensures
            r@ == self@.sub,
    {
        &self.sub
    }

    /// The postal address, where there is one.
    pub fn address(&self) -> (r: Option<&AddressClaim>)
        ensures
            match r {
                Some(a) => self@.address == Some(a@),
                None => self@.address is None,
            },
    {
        self.address.as_ref()
    }

    /// The end user's full name.
    pub fn name(&self) -> (r: &LocalizedClaim)
        ensures
            r@ == self@.name,
    {
        &self.name
    }

    /// The end user's given names.
    pub fn given_name(&self) -> (r: &LocalizedClaim)
        ensures
            r@ == self@.given_name,
    {
        &self.given_name
    }

    /// The end user's surnames.
    pub fn family_name(&self) -> (r: &LocalizedClaim)
        ensures
            r@ == self@.family_name,
    {
        &self.family_name
    }

    /// The end user's middle names.
    pub fn middle_name(&self) -> (r: &LocalizedClaim)
        ensures
            r@ == self@.middle_name,
    {
        &self.middle_name
    }

    /// The end user's casual name.
    pub fn nickname(&self) -> (r: &LocalizedClaim)
        ensures
            r@ == self@.nickname,
    {
        &self.nickname
    }

    /// The shorthand name by which the end user wishes to be referred to.
    pub fn preferred_username(&self) -> (r: Option<&String>)
        ensures
            match r {
                Some(t) => self@.preferred_username == Some(t@),
                None => self@.preferred_username is None,
            },
    {
        self.preferred_username.as_ref()
    }

    /// URL of the end user's profile page.
    pub fn profile(&self) -> (r: &LocalizedClaim)
        ensures
            r@ == self@.profile,
    {
        &self.profile
    }

    /// URL of the end user's profile picture.
    pub fn picture(&self) -> (r: &LocalizedClaim)
        ensures
            r@ == self@.picture,
    {
        &self.picture
    }

    /// URL of the end user's web page or blog.
    pub fn website(&self) -> (r: &LocalizedClaim)
        ensures
            r@ == self@.website,
    {
        &self.website
    }

    /// The end user's preferred e-mail address.
    pub fn email(&self) -> (r: Option<&String>)
        ensures
            match r {
                Some(t) => self@.email == Some(t@),
                None => self@.email is None,
            },
    {
        self.email.as_ref()
    }

    /// Whether the provider has verified the e-mail address.
    pub fn email_verified(&self) -> (r: Option<bool>)
        ensures
            r == self@.email_verified,
    {
        self.email_verified
    }

    /// The end user's gender.
    pub fn gender(&self) -> (r: Option<&String>)
        ensures
            match r {
                Some(t) => self@.gender == Some(t@),
                None => self@.gender is None,
            },
    {
        self.gender.as_ref()
    }

    /// The end user's birthday.
    pub fn birthdate(&self) -> (r: Option<&String>)
        ensures
            match r {
                Some(t) => self@.birthdate == Some(t@),
                None => self@.birthdate is None,
            },
    {
        self.birthdate.as_ref()
    }

    /// The end user's time zone.
    pub fn zoneinfo(&self) -> (r: Option<&String>)
        ensures
            match r {
                Some(t) => self@.zoneinfo == Some(t@),
                None => self@.zoneinfo is None,
            },
    {
        self.zoneinfo.as_ref()
    }

    /// The end user's locale.
    pub fn locale(&self) -> (r: Option<&String>)
        ensures
            match r {
                Some(t) => self@.locale == Some(t@),
                None => self@.locale is None,
            },
    {
        self.locale.as_ref()
    }

    /// The end user's preferred telephone number.
    pub fn phone_number(&self) -> (r: Option<&String>)
        ensures
            match r {
                Some(t) => self@.phone_number == Some(t@),
                None => self@.phone_number is None,
            },
    {
        self.phone_number.as_ref()
    }

    /// Whether the provider has verified the telephone number.
    pub fn phone_number_verified(&self) -> (r: Option<bool>)
        ensures
            r == self@.phone_number_verified,
    {
        self.phone_number_verified
    }

    /// When the end user's information was last updated, in seconds since the epoch.
    pub fn updated_at(&self) -> (r: Option<i64>)
        ensures
            r == self@.updated_at,
    {
        self.updated_at
    }

}

impl Clone for StandardClaims {
    fn clone(&self) -> (r: Self)
        ensures
            r@ == self@,
    {
        StandardClaims {
            sub: self.sub.clone(),
            name: self.name.clone(),
            given_name: self.given_name.clone(),
            family_name: self.family_name.clone(),
            middle_name: self.middle_name.clone(),
            nickname: self.nickname.clone(),
            preferred_username: clone_text(&self.preferred_username),
            profile: self.profile.clone(),
            picture: self.picture.clone(),
            website: self.website.clone(),
            email: clone_text(&self.email),
            email_verified: self.email_verified,
            gender: clone_text(&self.gender),
            birthdate: clone_text(&self.birthdate),
            zoneinfo: clone_text(&self.zoneinfo),
            locale: clone_text(&self.locale),
            phone_number: clone_text(&self.phone_number),
            phone_number_verified: self.phone_number_verified,
            updated_at: self.updated_at,
            address: match &self.address {
                Some(a) => Some(a.clone()),
                None => None,
            },
        }
    }
}

} // verus!
