//! Finding the bundle that a repository's releases offer.
//!
//! The releases are filtered to those that offer a bundle, the user picks one
//! by its tag, and then one of its bundles where it offers several.
use crate::appimage::{locator_of, AppImage, AppImageView};
use crate::error::{Error, ErrorView};
use crate::host::{Action, ActionView, Event, EventView};
use crate::text::{
    chars_of, ends_with, ends_with_chars, find_char, lowercase, lowercase_of, same_text,
    split_once,
};
use vstd::prelude::*;

verus! {

/// One file of a release.
#[derive(Debug, Clone, PartialEq, Eq)]
pub struct Asset {
    pub name: String,
    /// Where the file can be fetched.
    pub url: String,
}

/// One release of a repository.
#[derive(Debug, Clone, PartialEq, Eq)]
pub struct Release {
    pub tag_name: String,
    pub assets: Vec<Asset>,
}

pub struct AssetView {
    pub name: Seq<char>,
    pub url: Seq<char>,
}

pub struct ReleaseView {
    pub tag_name: Seq<char>,
    pub assets: Seq<AssetView>,
}

impl DeepView for Asset {
    type V = AssetView;

    open spec fn deep_view(&self) -> AssetView {
        AssetView { name: self.name@, url: self.url@ }
    }
}

impl DeepView for Release {
    type V = ReleaseView;

    open spec fn deep_view(&self) -> ReleaseView {
        ReleaseView { tag_name: self.tag_name@, assets: self.assets.deep_view() }
    }
}

/// Whether a file of this name is taken for a bundle: in lower case it ends
/// with `.appimage`.
pub open spec fn is_bundle_name(name: Seq<char>) -> bool {
    ends_with(lowercase_of(name), ".appimage"@)
}

/// The bundles among the files of a release, in their order.
pub open spec fn bundles_among(assets: Seq<AssetView>) -> Seq<AssetView>
    decreases assets.len(),
{
    if assets.len() == 0 {
        Seq::empty()
    } else {
        let before = bundles_among(assets.drop_last());
        if is_bundle_name(assets.last().name) {
            before.push(assets.last())
        } else {
            before
        }
    }
}

/// Whether the release offers a bundle.
pub open spec fn offers_bundle(release: ReleaseView) -> bool {
    bundles_among(release.assets).len() > 0
}

/// The tags of the releases that offer a bundle, in the order of the releases.
pub open spec fn bundle_tags(releases: Seq<ReleaseView>) -> Seq<Seq<char>>
    decreases releases.len(),
{
    if releases.len() == 0 {
        Seq::empty()
    } else {
        let before = bundle_tags(releases.drop_last());
        if offers_bundle(releases.last()) {
            before.push(releases.last().tag_name)
        } else {
            before
        }
    }
}

/// The bundles of the releases tagged `tag`, in the order of the releases and
/// of their files.
pub open spec fn bundle_assets(releases: Seq<ReleaseView>, tag: Seq<char>) -> Seq<AssetView>
    decreases releases.len(),
{
    if releases.len() == 0 {
        Seq::empty()
    } else {
        let before = bundle_assets(releases.drop_last(), tag);
        if releases.last().tag_name == tag {
            before + bundles_among(releases.last().assets)
        } else {
            before
        }
    }
}

/// The names of the files, in their order.
pub open spec fn asset_names(assets: Seq<AssetView>) -> Seq<Seq<char>> {
    Seq::new(assets.len(), |i: int| assets[i].name)
}

/// The repository's owner and name, where `slug` holds a `/`.
pub open spec fn slug_parts(slug: Seq<char>) -> Option<(Seq<char>, Seq<char>)> {
    split_once(slug, '/')
}

/// A release whose tag the user can pick offers a bundle under that tag.
pub proof fn lemma_offered_tag_has_assets(releases: Seq<ReleaseView>, at: int)
    requires
        0 <= at < bundle_tags(releases).len(),
    ensures
        bundle_assets(releases, bundle_tags(releases)[at]).len() > 0,
    decreases releases.len(),
{
    let tag = bundle_tags(releases)[at];
    let before = releases.drop_last();
    if offers_bundle(releases.last()) && at == bundle_tags(before).len() {
        assert(releases.last().tag_name == tag);
    } else {
        assert(bundle_tags(before)[at] == tag);
        lemma_offered_tag_has_assets(before, at);
    }
}

/// Whether a file of this name is taken for a bundle, given the name in lower case.
pub fn has_bundle_suffix(lowered: &str) -> (r: bool)
    ensures
        r == ends_with(lowered@, ".appimage"@),
{
    let name = chars_of(lowered);
    let suffix = chars_of(".appimage");
    ends_with_chars(&name, &suffix)
}

/// Whether a file of this name is taken for a bundle.
pub fn names_bundle(name: &str) -> (r: bool)
    ensures
        r == is_bundle_name(name@),
{
    let lowered = lowercase(name);
    has_bundle_suffix(lowered.as_str())
}

impl Asset {
    /// A copy of the file's description.
    pub fn duplicate(&self) -> (r: Asset)
        ensures
            r.deep_view() == self.deep_view(),
    {
        Asset { name: self.name.clone(), url: self.url.clone() }
    }
}

/// The bundles among the files, in their order.
pub fn bundles_of(assets: &Vec<Asset>) -> (r: Vec<Asset>)
    ensures
        r.deep_view() == bundles_among(assets.deep_view()),
{
    let mut r: Vec<Asset> = Vec::new();
    let mut i: usize = 0;
    let ghost all = assets.deep_view();
    assert(r.deep_view() =~= Seq::<AssetView>::empty());
    while i < assets.len()
        invariant
            i <= assets.len(),
            all == assets.deep_view(),
            r.deep_view() == bundles_among(all.take(i as int)),
        decreases assets.len() - i,
    {
        let ghost before = r.deep_view();
        proof {
            assert(all.take(i + 1).drop_last() =~= all.take(i as int));
            assert(all.take(i + 1).last() == assets@[i as int].deep_view());
        }
        if names_bundle(assets[i].name.as_str()) {
            r.push(assets[i].duplicate());
            assert(r.deep_view() =~= before.push(assets@[i as int].deep_view()));
        }
        i += 1;
    }
    assert(all.take(assets.len() as int) =~= all);
    r
}

/// The tags of the releases that offer a bundle, in the order of the releases.
pub fn release_tags(releases: &Vec<Release>) -> (r: Vec<String>)
    ensures
        r.deep_view() == bundle_tags(releases.deep_view()),
{
    let mut r: Vec<String> = Vec::new();
    let mut i: usize = 0;
    let ghost all = releases.deep_view();
    assert(r.deep_view() =~= Seq::<Seq<char>>::empty());
    while i < releases.len()
        invariant
            i <= releases.len(),
            all == releases.deep_view(),
            r.deep_view() == bundle_tags(all.take(i as int)),
        decreases releases.len() - i,
    {
        let ghost before = r.deep_view();
        proof {
            assert(all.take(i + 1).drop_last() =~= all.take(i as int));
            assert(all.take(i + 1).last() == releases@[i as int].deep_view());
        }
        let offered = bundles_of(&releases[i].assets);
        if offered.len() > 0 {
            r.push(releases[i].tag_name.clone());
            assert(r.deep_view() =~= before.push(releases@[i as int].tag_name@));
        }
        i += 1;
    }
    assert(all.take(releases.len() as int) =~= all);
    r
}

/// The bundles of the releases tagged `tag`, in the order of the releases and
/// of their files.
pub fn release_assets(releases: &Vec<Release>, tag: &str) -> (r: Vec<Asset>)
    ensures
        r.deep_view() == bundle_assets(releases.deep_view(), tag@),
{
    let mut r: Vec<Asset> = Vec::new();
    let mut i: usize = 0;
    let ghost all = releases.deep_view();
    assert(r.deep_view() =~= Seq::<AssetView>::empty());
    while i < releases.len()
        invariant
            i <= releases.len(),
            all == releases.deep_view(),
            r.deep_view() == bundle_assets(all.take(i as int), tag@),
        decreases releases.len() - i,
    {
        let ghost before = r.deep_view();
        proof {
            assert(all.take(i + 1).drop_last() =~= all.take(i as int));
            assert(all.take(i + 1).last() == releases@[i as int].deep_view());
        }
        if same_text(releases[i].tag_name.as_str(), tag) {
            let mut offered = bundles_of(&releases[i].assets);
            let ghost added = offered.deep_view();
            r.append(&mut offered);
            assert(r.deep_view() =~= before + added);
        }
        i += 1;
    }
    assert(all.take(releases.len() as int) =~= all);
    r
}

/// The names of the files, in their order.
pub fn names_of(assets: &Vec<Asset>) -> (r: Vec<String>)
    ensures
        r.deep_view() == asset_names(assets.deep_view()),
{
    let mut r: Vec<String> = Vec::new();
    let mut i: usize = 0;
    while i < assets.len()
        invariant
            i <= assets.len(),
            r.len() == i,
            forall|k: int| 0 <= k < i ==> r@[k]@ == assets@[k].name@,
        decreases assets.len() - i,
    {
        r.push(assets[i].name.clone());
        i += 1;
    }
    assert(r.deep_view() =~= asset_names(assets.deep_view()));
    r
}

/// The repository's owner and name. Fails with `InvalidSlug` exactly where
/// `slug` holds no `/`; else the owner is what stands before the first `/`.
pub fn parse_slug(slug: &str) -> (r: Result<(String, String), Error>)
    ensures
        match slug_parts(slug@) {
            Some((owner, repo)) => r matches Ok(pair) && pair.0@ == owner && pair.1@ == repo,
            None => r matches Err(e) && e.deep_view() == ErrorView::InvalidSlug(slug@),
        },
{
    let chars = chars_of(slug);
    match find_char(&chars, '/') {
        Some(i) => {
            let n: usize = chars.len();
            let owner = String::from_str(slug.substring_char(0, i));
            let repo = String::from_str(slug.substring_char(i + 1, n));
            proof {
                assert(slug@.take(i as int) =~= slug@.subrange(0, i as int));
                assert(slug@.skip(i + 1) =~= slug@.subrange(i + 1, n as int));
            }
            Ok((owner, repo))
        },
        None => Err(Error::InvalidSlug(String::from_str(slug))),
    }
}

/// How far the search for a bundle's URL has come.
#[derive(Debug, Clone, PartialEq, Eq)]
pub enum Resolver {
    /// Nothing was asked yet.
    Start,
    /// The host is listing the repository's releases.
    Listing,
    /// The user is picking a release by its tag.
    ChoosingRelease { releases: Vec<Release> },
    /// The user is picking one of the bundles of the release.
    ChoosingAsset { assets: Vec<Asset> },
    /// The URL of the bundle that was picked.
    Done(String),
    Failed(Error),
}

pub enum ResolverView {
    Start,
    Listing,
    ChoosingRelease { releases: Seq<ReleaseView> },
    ChoosingAsset { assets: Seq<AssetView> },
    Done(Seq<char>),
    Failed(ErrorView),
}

impl DeepView for Resolver {
    type V = ResolverView;

    open spec fn deep_view(&self) -> ResolverView {
        match self {
            Resolver::Start => ResolverView::Start,
            Resolver::Listing => ResolverView::Listing,
            Resolver::ChoosingRelease { releases } => ResolverView::ChoosingRelease {
                releases: releases.deep_view(),
            },
            Resolver::ChoosingAsset { assets } => ResolverView::ChoosingAsset {
                assets: assets.deep_view(),
            },
            Resolver::Done(url) => ResolverView::Done(url@),
            Resolver::Failed(e) => ResolverView::Failed(e.deep_view()),
        }
    }
}

/// The step that a state takes on an answer it does not wait for.
pub open spec fn resolver_unexpected() -> (ResolverView, Option<ActionView>) {
    (ResolverView::Failed(ErrorView::Unexpected), None)
}

/// What the search does once the user has picked the tag `tag`: with one
/// bundle under the tag it is done, with several the user picks again.
pub open spec fn resolver_after_tag(releases: Seq<ReleaseView>, tag: Seq<char>) -> (
    ResolverView,
    Option<ActionView>,
) {
    let assets = bundle_assets(releases, tag);
    if assets.len() > 1 {
        (
            ResolverView::ChoosingAsset { assets },
            Some(ActionView::Choose { prompt: "Choose an asset"@, items: asset_names(assets) }),
        )
    } else if assets.len() == 1 {
        (ResolverView::Done(assets[0].url), None)
    } else {
        (ResolverView::Failed(ErrorView::NoReleasesFound), None)
    }
}

/// One step of the search for the URL of the bundle that the record's
/// repository offers.
///
/// The slug is split at its first `/`; the releases are listed, a hundred at
/// most; those that offer a bundle are put before the user by their tags, in
/// the order listed, and none offering one ends the search before any prompt;
/// the bundles under the tag picked are put before the user where there are
/// several.
pub open spec fn resolver_next(record: AppImageView, state: ResolverView, event: EventView) -> (
    ResolverView,
    Option<ActionView>,
) {
    match state {
        ResolverView::Start => match event {
            EventView::Begin => match slug_parts(locator_of(record.source)) {
                Some((owner, repo)) => (
                    ResolverView::Listing,
                    Some(ActionView::ListReleases { owner, repo, per_page: 100 }),
                ),
                None => (
                    ResolverView::Failed(ErrorView::InvalidSlug(locator_of(record.source))),
                    None,
                ),
            },
            _ => resolver_unexpected(),
        },
        ResolverView::Listing => match event {
            EventView::Releases(releases) => if bundle_tags(releases).len() == 0 {
                (ResolverView::Failed(ErrorView::NoReleasesFound), None)
            } else {
                (
                    ResolverView::ChoosingRelease { releases },
                    Some(
                        ActionView::Choose {
                            prompt: "Choose a release"@,
                            items: bundle_tags(releases),
                        },
                    ),
                )
            },
            EventView::Failed(e) => (ResolverView::Failed(e), None),
            _ => resolver_unexpected(),
        },
        ResolverView::ChoosingRelease { releases } => match event {
            EventView::Choice(at) => if at < bundle_tags(releases).len() {
                resolver_after_tag(releases, bundle_tags(releases)[at as int])
            } else {
                resolver_unexpected()
            },
            EventView::Failed(e) => (ResolverView::Failed(e), None),
            _ => resolver_unexpected(),
        },
        ResolverView::ChoosingAsset { assets } => match event {
            EventView::Choice(at) => if at < assets.len() {
                (ResolverView::Done(assets[at as int].url), None)
            } else {
                resolver_unexpected()
            },
            EventView::Failed(e) => (ResolverView::Failed(e), None),
            _ => resolver_unexpected(),
        },
        ResolverView::Done(url) => (ResolverView::Done(url), None),
        ResolverView::Failed(e) => (ResolverView::Failed(e), None),
    }
}

/// A tag that the user can pick never leaves the search without a bundle.
pub proof fn lemma_picked_tag_resolves(releases: Seq<ReleaseView>, at: int)
    requires
        0 <= at < bundle_tags(releases).len(),
    ensures
        !(resolver_after_tag(releases, bundle_tags(releases)[at]).0 is Failed),
{
    lemma_offered_tag_has_assets(releases, at);
}

/// The user is never asked to pick from nothing: every list that the search
/// puts before the user holds an item.
pub proof fn lemma_choices_are_never_empty(
    record: AppImageView,
    state: ResolverView,
    event: EventView,
)
    ensures
        resolver_next(record, state, event).1 matches Some(ActionView::Choose { items, .. })
            ==> items.len() > 0,
{
}

fn after_tag(releases: &Vec<Release>, tag: &str) -> (r: (Resolver, Option<Action>))
    ensures
        r.0.deep_view() == resolver_after_tag(releases.deep_view(), tag@).0,
        r.1.deep_view() == resolver_after_tag(releases.deep_view(), tag@).1,
{
    let mut assets = release_assets(releases, tag);
    if assets.len() > 1 {
        let items = names_of(&assets);
        (
            Resolver::ChoosingAsset { assets },
            Some(Action::Choose { prompt: String::from_str("Choose an asset"), items }),
        )
    } else if assets.len() == 1 {
        let ghost all = assets.deep_view();
        let asset = assets.swap_remove(0);
        assert(asset.deep_view() == all[0]);
        (Resolver::Done(asset.url), None)
    } else {
        (Resolver::Failed(Error::NoReleasesFound), None)
    }
}

/// One step of the search for the URL of the bundle that the record's
/// repository offers.
pub fn get_github_release_url(appimage: &AppImage, state: Resolver, event: Event) -> (r: (
    Resolver,
    Option<Action>,
))
    ensures
        r.0.deep_view() == resolver_next(
            appimage.deep_view(),
            state.deep_view(),
            event.deep_view(),
        ).0,
        r.1.deep_view() == resolver_next(
            appimage.deep_view(),
            state.deep_view(),
            event.deep_view(),
        ).1,
{
    match state {
        Resolver::Start => match event {
            Event::Begin => {
                let slug = match &appimage.source {
                    crate::appimage::Source::RawUrl { url } => url,
                    crate::appimage::Source::GitHub { slug } => slug,
                };
                match parse_slug(slug.as_str()) {
                    Ok(pair) => (
                        Resolver::Listing,
                        Some(Action::ListReleases { owner: pair.0, repo: pair.1, per_page: 100 }),
                    ),
                    Err(e) => (Resolver::Failed(e), None),
                }
            },
            _ => (Resolver::Failed(Error::Unexpected), None),
        },
        Resolver::Listing => match event {
            Event::Releases(releases) => {
                let tags = release_tags(&releases);
                if tags.len() == 0 {
                    (Resolver::Failed(Error::NoReleasesFound), None)
                } else {
                    (
                        Resolver::ChoosingRelease { releases },
                        Some(
                            Action::Choose {
                                prompt: String::from_str("Choose a release"),
                                items: tags,
                            },
                        ),
                    )
                }
            },
            Event::Failed(e) => (Resolver::Failed(e), None),
            _ => (Resolver::Failed(Error::Unexpected), None),
        },
        Resolver::ChoosingRelease { releases } => match event {
            Event::Choice(at) => {
                let mut tags = release_tags(&releases);
                if at < tags.len() {
                    let ghost all = tags.deep_view();
                    let tag = tags.swap_remove(at);
                    assert(tag@ == all[at as int]);
                    after_tag(&releases, tag.as_str())
                } else {
                    (Resolver::Failed(Error::Unexpected), None)
                }
            },
            Event::Failed(e) => (Resolver::Failed(e), None),
            _ => (Resolver::Failed(Error::Unexpected), None),
        },
        Resolver::ChoosingAsset { assets } => match event {
            Event::Choice(at) => {
                let mut assets = assets;
                if at < assets.len() {
                    let ghost all = assets.deep_view();
                    let asset = assets.swap_remove(at);
                    assert(asset.deep_view() == all[at as int]);
                    (Resolver::Done(asset.url), None)
                } else {
                    (Resolver::Failed(Error::Unexpected), None)
                }
            },
            Event::Failed(e) => (Resolver::Failed(e), None),
            _ => (Resolver::Failed(Error::Unexpected), None),
        },
        Resolver::Done(url) => (Resolver::Done(url), None),
        Resolver::Failed(e) => (Resolver::Failed(e), None),
    }
}

} // verus!
