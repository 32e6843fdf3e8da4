//! Chat badges, from the `badges` and `badge-info` tags.
use std::borrow::Cow;
use smallvec::SmallVec;
use vstd::prelude::*;
use crate::irc::prefix::opt_view;
use crate::msg::{copy_cow, copy_opt_cow, cow_str, opt_cow_str, opt_cow_view, opt_owned_cow, owned_cow};
use crate::strings::{digits_value, lemma_chars_differ, lemma_split_char_single, lemma_split_once_char, parse_u64, parse_unsigned, split, split_char, split_once, split_once_char, strs_view, unsigned_digits};
use crate::text::str_eq;

verus! {

broadcast use vstd::string::group_string_axioms;

/// What a badge stands for.
pub enum BadgeView {
    /// `staff`
    Staff,
    /// `turbo`
    Turbo,
    /// `broadcaster`
    Broadcaster,
    /// `moderator`
    Moderator,
    /// `subscriber`, with its version, the months as written, and the months as a number.
    Subscriber(Seq<char>, Seq<char>, u64),
    /// Any other badge: name, version and extra info.
    Other(Seq<char>, Seq<char>, Option<Seq<char>>),
}

/// The months of a `subscriber` badge: the number in `extra`, else 1.
pub open spec fn subscriber_months(extra: Option<Seq<char>>) -> u64 {
    match extra {
        Some(e) => match parse_unsigned(e, u64::MAX as int) {
            Some(n) => n as u64,
            None => 1,
        },
        None => 1,
    }
}

/// The badge that the name `name`, the version `version` and the badge info `extra` make.
pub open spec fn badge_of(name: Seq<char>, version: Seq<char>, extra: Option<Seq<char>>) -> BadgeView {
    if name == "staff"@ {
        BadgeView::Staff
    } else if name == "turbo"@ {
        BadgeView::Turbo
    } else if name == "broadcaster"@ {
        BadgeView::Broadcaster
    } else if name == "moderator"@ {
        BadgeView::Moderator
    } else if name == "subscriber"@ {
        BadgeView::Subscriber(
            version,
            match extra {
                Some(e) => e,
                None => "1"@,
            },
            subscriber_months(extra),
        )
    } else {
        BadgeView::Other(name, version, extra)
    }
}

/// The name, version and extra info of a badge.
pub open spec fn data_of(b: BadgeView) -> (Seq<char>, Seq<char>, Option<Seq<char>>) {
    match b {
        BadgeView::Staff => ("staff"@, "1"@, None),
        BadgeView::Turbo => ("turbo"@, "1"@, None),
        BadgeView::Broadcaster => ("broadcaster"@, "1"@, None),
        BadgeView::Moderator => ("moderator"@, "1"@, None),
        BadgeView::Subscriber(version, months, _) => ("subscriber"@, version, Some(months)),
        BadgeView::Other(name, version, extra) => (name, version, extra),
    }
}

/// A subscriber badge.
#[derive(Debug, PartialEq, Eq)]
pub struct Subscriber<'src> {
    version: Cow<'src, str>,
    months: Cow<'src, str>,
    months_n: u64,
}

impl<'src> View for Subscriber<'src> {
    type V = (Seq<char>, Seq<char>, u64);

    closed spec fn view(&self) -> (Seq<char>, Seq<char>, u64) {
        (self.version@, self.months@, self.months_n)
    }
}

impl<'src> Clone for Subscriber<'src> {
    fn clone(&self) -> (r: Self)
        ensures
            r@ == self@,
    {
        Subscriber {
            version: copy_cow(&self.version),
            months: copy_cow(&self.months),
            months_n: self.months_n,
        }
    }
}

impl<'src> Subscriber<'src> {
    /// Version of the badge.
    ///
    /// This comes from the `badges` tag.
    pub fn version(&self) -> (r: &str)
        ensures
            r@ == self@.0,
    {
        cow_str(&self.version)
    }

    /// Number of months subscribed.
    ///
    /// This comes from the `badge_info` tag.
    pub fn months(&self) -> (r: u64)
        ensures
            r == self@.2,
    {
        self.months_n
    }

    /// Clone data to give the value a `'static` lifetime.
    pub fn into_owned(self) -> (r: Subscriber<'static>)
        ensures
            r@ == self@,
    {
        Subscriber {
            version: owned_cow(self.version),
            months: owned_cow(self.months),
            months_n: self.months_n,
        }
    }
}

/// Basic info about a badge.
#[derive(Debug, PartialEq, Eq)]
pub struct BadgeData<'src> {
    name: Cow<'src, str>,
    version: Cow<'src, str>,
    extra: Option<Cow<'src, str>>,
}

impl<'src> View for BadgeData<'src> {
    type V = (Seq<char>, Seq<char>, Option<Seq<char>>);

    closed spec fn view(&self) -> (Seq<char>, Seq<char>, Option<Seq<char>>) {
        (self.name@, self.version@, opt_cow_view(self.extra))
    }
}

impl<'src> Clone for BadgeData<'src> {
    fn clone(&self) -> (r: Self)
        ensures
            r@ == self@,
    {
        BadgeData {
            name: copy_cow(&self.name),
            version: copy_cow(&self.version),
            extra: copy_opt_cow(&self.extra),
        }
    }
}

impl<'src> BadgeData<'src> {
    /// Badge data made of its name, version and extra info.
    pub fn new(name: &'src str, version: &'src str, extra: Option<&'src str>) -> (r: BadgeData<'src>)
        ensures
            r@ == (name@, version@, opt_view(extra)),
    {
        BadgeData {
            name: Cow::Borrowed(name),
            version: Cow::Borrowed(version),
            extra: match extra {
                Some(e) => Some(Cow::Borrowed(e)),
                None => None,
            },
        }
    }

    /// Name of the badge, e.g. `subscriber`.
    ///
    /// This comes from the `badges` tag.
    pub fn name(&self) -> (r: &str)
        ensures
            r@ == self@.0,
    {
        cow_str(&self.name)
    }

    /// Version of the badge.
    ///
    /// This comes from the `badges` tag.
    pub fn version(&self) -> (r: &str)
        ensures
            r@ == self@.1,
    {
        cow_str(&self.version)
    }

    /// Extra badge info, such as the exact number of
    /// subscribed months for `subscriber`.
    ///
    /// This comes from the `badge_info` tag.
    pub fn extra(&self) -> (r: Option<&str>)
        ensures
            opt_view(r) == self@.2,
    {
        opt_cow_str(&self.extra)
    }

    /// Clone data to give the value a `'static` lifetime.
    pub fn into_owned(self) -> (r: BadgeData<'static>)
        ensures
            r@ == self@,
    {
        BadgeData {
            name: owned_cow(self.name),
            version: owned_cow(self.version),
            extra: opt_owned_cow(self.extra),
        }
    }

    /// The data of a badge; this is `BadgeData::from(badge)`.
    pub fn from_badge(value: Badge<'src>) -> (r: BadgeData<'src>)
        ensures
            r@ == data_of(value@),
    {
        match value {
            Badge::Staff => BadgeData { name: Cow::Borrowed("staff"), version: Cow::Borrowed("1"), extra: None },
            Badge::Turbo => BadgeData { name: Cow::Borrowed("turbo"), version: Cow::Borrowed("1"), extra: None },
            Badge::Broadcaster => BadgeData {
                name: Cow::Borrowed("broadcaster"),
                version: Cow::Borrowed("1"),
                extra: None,
            },
            Badge::Moderator => BadgeData {
                name: Cow::Borrowed("moderator"),
                version: Cow::Borrowed("1"),
                extra: None,
            },
            Badge::Subscriber(s) => BadgeData {
                name: Cow::Borrowed("subscriber"),
                version: s.version,
                extra: Some(s.months),
            },
            Badge::Other(data) => data,
        }
    }
}

/// A chat badge.
#[derive(Debug, PartialEq, Eq)]
pub enum Badge<'src> {
    /// `staff/1`
    Staff,
    /// `turbo/1`
    Turbo,
    /// `broadcaster/1`
    Broadcaster,
    /// `moderator/1`
    Moderator,
    /// `subscriber/{variant}` from `badges` + `subscriber/{months}` from `badge_info`.
    Subscriber(Subscriber<'src>),
    /// Some other badge.
    Other(BadgeData<'src>),
}

impl<'src> View for Badge<'src> {
    type V = BadgeView;

    open spec fn view(&self) -> BadgeView {
        match self {
            Badge::Staff => BadgeView::Staff,
            Badge::Turbo => BadgeView::Turbo,
            Badge::Broadcaster => BadgeView::Broadcaster,
            Badge::Moderator => BadgeView::Moderator,
            Badge::Subscriber(s) => BadgeView::Subscriber(s@.0, s@.1, s@.2),
            Badge::Other(d) => BadgeView::Other(d@.0, d@.1, d@.2),
        }
    }
}

/// What each badge stands for.
pub open spec fn badge_views(v: Seq<Badge>) -> Seq<BadgeView> {
    v.map_values(|b: Badge| b@)
}

impl<'src> Clone for Badge<'src> {
    fn clone(&self) -> (r: Self)
        ensures
            r@ == self@,
    {
        match self {
            Badge::Staff => Badge::Staff,
            Badge::Turbo => Badge::Turbo,
            Badge::Broadcaster => Badge::Broadcaster,
            Badge::Moderator => Badge::Moderator,
            Badge::Subscriber(s) => Badge::Subscriber(s.clone()),
            Badge::Other(d) => Badge::Other(d.clone()),
        }
    }
}

impl<'src> Badge<'src> {
    /// The badge that some badge data stands for; this is `Badge::from(data)`.
    pub fn from_data(value: BadgeData<'src>) -> (r: Badge<'src>)
        ensures
            r@ == badge_of(value@.0, value@.1, value@.2),
    {
        let is_staff = str_eq(cow_str(&value.name), "staff");
        let is_turbo = str_eq(cow_str(&value.name), "turbo");
        let is_broadcaster = str_eq(cow_str(&value.name), "broadcaster");
        let is_moderator = str_eq(cow_str(&value.name), "moderator");
        let is_subscriber = str_eq(cow_str(&value.name), "subscriber");
        if is_staff {
            Badge::Staff
        } else if is_turbo {
            Badge::Turbo
        } else if is_broadcaster {
            Badge::Broadcaster
        } else if is_moderator {
            Badge::Moderator
        } else if is_subscriber {
            let months_n = match &value.extra {
                Some(e) => match parse_u64(cow_str(e)) {
                    Some(n) => n,
                    None => 1,
                },
                None => 1,
            };
            let months = match value.extra {
                Some(e) => e,
                None => Cow::Borrowed("1"),
            };
            Badge::Subscriber(Subscriber { version: value.version, months, months_n })
        } else {
            Badge::Other(value)
        }
    }

    /// Get the base [`BadgeData`].
    pub fn as_badge_data(&self) -> (r: BadgeData<'src>)
        ensures
            r@ == data_of(self@),
    {
        let copy = self.clone();
        BadgeData::from_badge(copy)
    }

    /// Clone data to give the value a `'static` lifetime.
    pub fn into_owned(self) -> (r: Badge<'static>)
        ensures
            r@ == self@,
    {
        match self {
            Badge::Staff => Badge::Staff,
            Badge::Turbo => Badge::Turbo,
            Badge::Broadcaster => Badge::Broadcaster,
            Badge::Moderator => Badge::Moderator,
            Badge::Subscriber(s) => Badge::Subscriber(s.into_owned()),
            Badge::Other(d) => Badge::Other(d.into_owned()),
        }
    }
}

/// Copies of the badges.
pub fn copy_badges<'a>(v: &Vec<Badge<'a>>) -> (r: Vec<Badge<'a>>)
    ensures
        badge_views(r@) == badge_views(v@),
{
    let mut out: Vec<Badge<'a>> = Vec::new();
    let mut i: usize = 0;
    while i < v.len()
        invariant
            i <= v@.len(),
            badge_views(out@) == badge_views(v@.take(i as int)),
        decreases v@.len() - i,
    {
        let ghost before = out@;
        let b = v[i].clone();
        out.push(b);
        assert(badge_views(out@) =~= badge_views(before).push(b@));
        assert(v@.take(i + 1) =~= v@.take(i as int).push(v@[i as int]));
        assert(badge_views(v@.take(i + 1)) =~= badge_views(v@.take(i as int)).push(v@[i as int]@));
        i = i + 1;
    }
    assert(v@.take(i as int) =~= v@);
    out
}

/// Clone the badges to give them a `'static` lifetime.
pub fn badges_into_owned(v: Vec<Badge<'_>>) -> (r: Vec<Badge<'static>>)
    ensures
        badge_views(r@) == badge_views(v@),
{
    let ghost orig = v@;
    let mut v = v;
    let mut out: Vec<Badge<'static>> = Vec::new();
    let n = v.len();
    let mut i: usize = 0;
    while i < n
        invariant
            n == orig.len(),
            i <= n,
            v@ == orig.skip(i as int),
            badge_views(out@) == badge_views(orig.take(i as int)),
        decreases n - i,
    {
        let b = v.remove(0);
        assert(b == orig[i as int]);
        let ghost before = out@;
        let ob = b.into_owned();
        out.push(ob);
        assert(badge_views(out@) =~= badge_views(before).push(ob@));
        assert(orig.take(i + 1) =~= orig.take(i as int).push(orig[i as int]));
        assert(badge_views(orig.take(i + 1)) =~= badge_views(orig.take(i as int)).push(orig[i as int]@));
        i = i + 1;
        assert(v@ =~= orig.skip(i as int));
        assert(badge_views(out@) =~= badge_views(orig.take(i as int)));
    }
    assert(orig.take(n as int) =~= orig);
    out
}

/// The badge info list, kept inline for up to 32 entries.
#[verifier::external_body]
pub struct BadgeInfo<'a> {
    inner: SmallVec<[(&'a str, &'a str); 32]>,
}

/// The `(name, info)` pairs that a badge info list holds, in order.
pub uninterp spec fn badge_info_items(list: BadgeInfo) -> Seq<(Seq<char>, Seq<char>)>;

impl<'a> BadgeInfo<'a> {
    /// An empty list: this is `SmallVec::new`, which holds nothing.
    #[verifier::external_body]
    fn new() -> (r: BadgeInfo<'a>)
        ensures
            badge_info_items(r) == Seq::<(Seq<char>, Seq<char>)>::empty(),
    {
        BadgeInfo { inner: SmallVec::new() }
    }

    /// Appends a pair: this is `SmallVec::push`, which keeps the items before and
    /// adds the pair at the end. It fails only where the length would overflow.
    #[verifier::external_body]
    fn push(&mut self, name: &'a str, value: &'a str)
        requires
            badge_info_items(*old(self)).len() < usize::MAX,
        ensures
            badge_info_items(*final(self)) == badge_info_items(*old(self)).push((name@, value@)),
    {
        self.inner.push((name, value))
    }

    /// The number of pairs: this is `SmallVec::len`.
    #[verifier::external_body]
    fn len(&self) -> (r: usize)
        ensures
            r == badge_info_items(*self).len(),
    {
        self.inner.len()
    }

    /// The pair at `i`: this is indexing a `SmallVec`, which panics only out of bounds.
    #[verifier::external_body]
    fn get(&self, i: usize) -> (r: (&'a str, &'a str))
        requires
            i < badge_info_items(*self).len(),
        ensures
            (r.0@, r.1@) == badge_info_items(*self)[i as int],
    {
        self.inner[i]
    }
}

/// The `name/info` pairs of a badge info list; pieces without `/` are left out.
pub open spec fn info_pairs(pieces: Seq<Seq<char>>) -> Seq<(Seq<char>, Seq<char>)>
    decreases pieces.len(),
{
    if pieces.len() == 0 {
        Seq::<(Seq<char>, Seq<char>)>::empty()
    } else {
        let rest = info_pairs(pieces.drop_last());
        match split_once_char(pieces.last(), '/') {
            Some(p) => rest.push(p),
            None => rest,
        }
    }
}

/// The info of the first pair named `name`.
pub open spec fn find_info(pairs: Seq<(Seq<char>, Seq<char>)>, name: Seq<char>) -> Option<Seq<char>>
    decreases pairs.len(),
{
    if pairs.len() == 0 {
        None
    } else if pairs[0].0 == name {
        Some(pairs[0].1)
    } else {
        find_info(pairs.drop_first(), name)
    }
}

/// The badges of the `name/version` pieces, each with the info of its name.
pub open spec fn badges_from(pieces: Seq<Seq<char>>, pairs: Seq<(Seq<char>, Seq<char>)>) -> Seq<BadgeView>
    decreases pieces.len(),
{
    if pieces.len() == 0 {
        Seq::<BadgeView>::empty()
    } else {
        let rest = badges_from(pieces.drop_last(), pairs);
        match split_once_char(pieces.last(), '/') {
            Some((name, version)) => rest.push(badge_of(name, version, find_info(pairs, name))),
            None => rest,
        }
    }
}

/// The badges that the `badges` and `badge-info` tag values describe.
pub open spec fn badge_list(badges: Seq<char>, info: Seq<char>) -> Seq<BadgeView> {
    if badges.len() == 0 {
        Seq::<BadgeView>::empty()
    } else {
        badges_from(split_char(badges, ','), info_pairs(split_char(info, ',')))
    }
}

/// The badges of a message, where it has both the `badges` and the `badge-info` tag.
pub open spec fn tag_badges(badges: Option<Seq<char>>, info: Option<Seq<char>>) -> Seq<BadgeView> {
    match (badges, info) {
        (Some(b), Some(i)) => badge_list(b, i),
        _ => Seq::<BadgeView>::empty(),
    }
}

/// The info of the first pair in `list` named `name`.
fn lookup_info<'a>(list: &BadgeInfo<'a>, name: &str) -> (r: Option<&'a str>)
    ensures
        opt_view(r) == find_info(badge_info_items(*list), name@),
{
    let ghost all = badge_info_items(*list);
    let n = list.len();
    let mut i: usize = 0;
    assert(all.skip(0) =~= all);
    while i < n
        invariant
            all == badge_info_items(*list),
            n == all.len(),
            i <= n,
            find_info(all, name@) == find_info(all.skip(i as int), name@),
        decreases n - i,
    {
        let (key, value) = list.get(i);
        assert(all.skip(i as int)[0] == all[i as int]);
        if str_eq(key, name) {
            return Some(value);
        }
        assert(all.skip(i as int).drop_first() =~= all.skip(i + 1));
        i = i + 1;
    }
    None
}

/// Reads the badges from the `badges` and `badge-info` tag values.
pub fn parse_badges<'src>(badges: &'src str, badge_info: &'src str) -> (r: Vec<Badge<'src>>)
    ensures
        badge_views(r@) == badge_list(badges@, badge_info@),
{
    if badges.unicode_len() == 0 {
        let v: Vec<Badge<'src>> = Vec::new();
        assert(badge_views(v@) =~= Seq::<BadgeView>::empty());
        return v;
    }
    let info_pieces = split(badge_info, ',');
    let ghost ip = strs_view(info_pieces@);
    let mut list = BadgeInfo::new();
    let mut i: usize = 0;
    while i < info_pieces.len()
        invariant
            ip == strs_view(info_pieces@),
            i <= info_pieces@.len(),
            badge_info_items(list) == info_pairs(ip.take(i as int)),
            badge_info_items(list).len() <= i,
        decreases info_pieces@.len() - i,
    {
        assert(ip.take(i + 1).drop_last() =~= ip.take(i as int));
        assert(ip.take(i + 1).last() == info_pieces[i as int]@);
        match split_once(info_pieces[i], '/') {
            Some((name, value)) => {
                list.push(name, value);
            },
            None => {},
        }
        i = i + 1;
    }
    assert(ip.take(i as int) =~= ip);
    let pieces = split(badges, ',');
    let ghost bp = strs_view(pieces@);
    let ghost pairs = badge_info_items(list);
    let mut out: Vec<Badge<'src>> = Vec::new();
    let mut j: usize = 0;
    while j < pieces.len()
        invariant
            bp == strs_view(pieces@),
            pairs == badge_info_items(list),
            j <= pieces@.len(),
            badge_views(out@) == badges_from(bp.take(j as int), pairs),
        decreases pieces@.len() - j,
    {
        assert(bp.take(j + 1).drop_last() =~= bp.take(j as int));
        assert(bp.take(j + 1).last() == pieces[j as int]@);
        let ghost before = out@;
        match split_once(pieces[j], '/') {
            Some((name, version)) => {
                let extra = lookup_info(&list, name);
                let b = Badge::from_data(BadgeData::new(name, version, extra));
                out.push(b);
                assert(badge_views(out@) =~= badge_views(before).push(b@));
            },
            None => {},
        }
        j = j + 1;
    }
    assert(bp.take(j as int) =~= bp);
    out
}

/// Reads the badges of a message from its optional `badges` and `badge-info` tag values.
pub fn parse_tag_badges<'src>(badges: Option<&'src str>, badge_info: Option<&'src str>) -> (r: Vec<Badge<'src>>)
    ensures
        badge_views(r@) == tag_badges(opt_view(badges), opt_view(badge_info)),
{
    match (badges, badge_info) {
        (Some(b), Some(i)) => parse_badges(b, i),
        _ => {
            let v: Vec<Badge<'src>> = Vec::new();
            assert(badge_views(v@) =~= Seq::<BadgeView>::empty());
            v
        },
    }
}

/// Turning badge data into a badge and back gives the data again, except for a
/// special badge (`staff`, `turbo`, `broadcaster`, `moderator`) whose version is not `1`
/// or which has extra info, and a `subscriber` badge without info.
pub proof fn lemma_badge_data_roundtrip(name: Seq<char>, version: Seq<char>, extra: Option<Seq<char>>)
    requires
        name == "staff"@ || name == "turbo"@ || name == "broadcaster"@ || name == "moderator"@ ==> version
            == "1"@ && extra is None,
        name == "subscriber"@ ==> extra is Some,
    ensures
        data_of(badge_of(name, version, extra)) == (name, version, extra),
{
}

/// Turning a badge into its data and back gives the same badge, for every badge that
/// badge data makes.
pub proof fn lemma_badge_roundtrip(name: Seq<char>, version: Seq<char>, extra: Option<Seq<char>>)
    ensures
        ({
            let b = badge_of(name, version, extra);
            badge_of(data_of(b).0, data_of(b).1, data_of(b).2) == b
        }),
{
    reveal_strlit("staff");
    reveal_strlit("turbo");
    reveal_strlit("broadcaster");
    reveal_strlit("moderator");
    reveal_strlit("subscriber");
    reveal_strlit("1");
    lemma_chars_differ("turbo", "staff", 0);
    lemma_chars_differ("moderator", "subscriber", 0);
    lemma_chars_differ("broadcaster", "subscriber", 0);
    if name == "subscriber"@ && extra is None {
        let one = "1"@;
        assert(unsigned_digits(one) == one);
        assert(one.drop_last() =~= Seq::<char>::empty());
        assert(digits_value(one.drop_last()) == 0);
        assert(one.last() == '1');
        assert(digits_value(one) == 1);
    }
}

/// The badges that Twitch names: `staff`, `turbo`, `broadcaster` and `moderator` are
/// their own badges whatever their version and info; `subscriber` keeps its version and
/// its info as the months, `1` where there is none, and counts the months as the number
/// that the info holds, or 1; any other name is kept as it is.
pub proof fn lemma_badge_names(name: Seq<char>, version: Seq<char>, extra: Option<Seq<char>>)
    ensures
        badge_of("staff"@, version, extra) == BadgeView::Staff,
        badge_of("turbo"@, version, extra) == BadgeView::Turbo,
        badge_of("broadcaster"@, version, extra) == BadgeView::Broadcaster,
        badge_of("moderator"@, version, extra) == BadgeView::Moderator,
        badge_of("subscriber"@, version, extra) == BadgeView::Subscriber(
            version,
            match extra {
                Some(e) => e,
                None => "1"@,
            },
            subscriber_months(extra),
        ),
        badge_of("subscriber"@, version, None) == BadgeView::Subscriber(version, "1"@, 1),
        extra matches Some(e) ==> badge_of("subscriber"@, version, extra) == BadgeView::Subscriber(
            version,
            e,
            match parse_unsigned(e, u64::MAX as int) {
                Some(n) => n as u64,
                None => 1,
            },
        ),
        name != "staff"@ && name != "turbo"@ && name != "broadcaster"@ && name != "moderator"@ && name
            != "subscriber"@ ==> badge_of(name, version, extra) == BadgeView::Other(name, version, extra),
{
    reveal_strlit("staff");
    reveal_strlit("turbo");
    reveal_strlit("broadcaster");
    reveal_strlit("moderator");
    reveal_strlit("subscriber");
    assert("staff"@.len() == 5 && "turbo"@.len() == 5 && "broadcaster"@.len() == 11);
    assert("moderator"@.len() == 9 && "subscriber"@.len() == 10);
    lemma_chars_differ("turbo", "staff", 0);
}

/// A single badge `name/version` takes its info from the `badge-info` piece of the same
/// name, and has none where the badge info is empty; a name holds no `/` or `,`, and a
/// version or an info no `,`.
pub proof fn lemma_single_badge(name: Seq<char>, version: Seq<char>, info: Seq<char>)
    requires
        forall|k: int| 0 <= k < name.len() ==> name[k] != '/' && name[k] != ',',
        forall|k: int| 0 <= k < version.len() ==> version[k] != ',',
        forall|k: int| 0 <= k < info.len() ==> info[k] != ',',
    ensures
        badge_list(name + seq!['/'] + version, name + seq!['/'] + info) == seq![
            badge_of(name, version, Some(info)),
        ],
        badge_list(name + seq!['/'] + version, Seq::<char>::empty()) == seq![badge_of(name, version, None)],
{
    let piece = name + seq!['/'] + version;
    let ipiece = name + seq!['/'] + info;
    assert forall|k: int| 0 <= k < piece.len() implies piece[k] != ',' by {
        if k < name.len() {
            assert(piece[k] == name[k]);
        } else if k > name.len() {
            assert(piece[k] == version[k - name.len() - 1]);
        }
    }
    assert forall|k: int| 0 <= k < ipiece.len() implies ipiece[k] != ',' by {
        if k < name.len() {
            assert(ipiece[k] == name[k]);
        } else if k > name.len() {
            assert(ipiece[k] == info[k - name.len() - 1]);
        }
    }
    lemma_split_char_single(piece, ',');
    lemma_split_char_single(ipiece, ',');
    lemma_split_char_single(Seq::<char>::empty(), ',');
    lemma_split_once_char(name, '/', version);
    lemma_split_once_char(name, '/', info);
    assert(seq![piece].drop_last() =~= Seq::<Seq<char>>::empty());
    assert(seq![ipiece].drop_last() =~= Seq::<Seq<char>>::empty());
    let no_pieces = Seq::<Seq<char>>::empty();
    let no_pairs = Seq::<(Seq<char>, Seq<char>)>::empty();
    assert(info_pairs(no_pieces) == no_pairs);
    assert(badges_from(no_pieces, info_pairs(seq![ipiece])) == Seq::<BadgeView>::empty());
    assert(seq![ipiece].last() == ipiece);
    assert(seq![piece].last() == piece);
    assert(split_once_char(ipiece, '/') == Some((name, info)));
    assert(split_once_char(piece, '/') == Some((name, version)));
    let pairs = info_pairs(seq![ipiece]);
    assert(pairs == no_pairs.push((name, info)));
    assert(pairs =~= seq![(name, info)]);
    assert(find_info(pairs, name) == Some(info));
    let none = Seq::<char>::empty();
    assert(seq![none].drop_last() =~= Seq::<Seq<char>>::empty());
    assert(split_once_char(none, '/') is None) by {
        lemma_split_once_char(none, '/', none);
    }
    assert(info_pairs(seq![none]) =~= Seq::<(Seq<char>, Seq<char>)>::empty());
    assert(badges_from(no_pieces, no_pairs) == Seq::<BadgeView>::empty());
    assert(seq![none].last() == none);
    assert(badges_from(seq![piece], pairs) =~= seq![badge_of(name, version, Some(info))]);
    assert(badges_from(seq![piece], info_pairs(seq![none])) =~= seq![badge_of(name, version, None)]);
}

} // verus!
