use vstd::prelude::*;

verus! {

/// A sound bundled with the application, named by a stable logical path.
#[derive(Clone, Copy, Debug, PartialEq, Eq, Structural)]
pub enum Asset {
    ButtonPress,
    Transition,
}

/// The logical resource path under which an asset is bundled.
pub open spec fn resource_name_spec(asset: Asset) -> Seq<char> {
    match asset {
        Asset::ButtonPress => "audio/button-press.wav"@,
        Asset::Transition => "audio/alarm-kitchen.mp3"@,
    }
}

impl Asset {
    /// The logical resource path that the resource resolver maps to a file.
    pub fn resource_name(self) -> (r: &'static str)
        ensures
            r@ == resource_name_spec(self),
    {
        match self {
            Asset::ButtonPress => "audio/button-press.wav",
            Asset::Transition => "audio/alarm-kitchen.mp3",
        }
    }
}


/// Failure of the resource resolver to locate a bundled asset.
#[derive(Clone, Copy, Debug, PartialEq, Eq, Structural)]
pub struct ResourceResolutionError;

/// The state of the cache as the contracts see it: the resolved path of
/// each asset, or `None` while it has not been resolved.
pub struct CacheModel {
    pub button_press: Option<Seq<char>>,
    pub transition: Option<Seq<char>>,
}

impl CacheModel {
    pub open spec fn empty() -> CacheModel {
        CacheModel { button_press: None, transition: None }
    }

    /// The cached path of `asset`, if any.
    pub open spec fn slot(self, asset: Asset) -> Option<Seq<char>> {
        match asset {
            Asset::ButtonPress => self.button_press,
            Asset::Transition => self.transition,
        }
    }

    /// The state after the resolver answered `resolved` for `asset`: an
    /// empty slot takes a successful answer; a filled slot never changes.
    pub open spec fn record(self, asset: Asset, resolved: Option<Seq<char>>) -> CacheModel {
        if self.slot(asset) is Some || resolved is None {
            self
        } else {
            match asset {
                Asset::ButtonPress => CacheModel { button_press: resolved, ..self },
                Asset::Transition => CacheModel { transition: resolved, ..self },
            }
        }
    }
}

/// What a caller must do to obtain the path of an asset.
#[derive(Debug, PartialEq, Eq)]
pub enum PathLookup {
    /// The path was resolved before; here it is.
    Cached(String),
    /// The path is not known yet: ask the resource resolver for this logical
    /// name and hand its answer to `AudioCache::record`.
    Resolve(&'static str),
}

/// Resolved paths of the bundled sounds. Each one is filled at most once and
/// never changes afterwards; callers share one instance behind a lock.
pub struct AudioCache {
    button_press_path: Option<String>,
    transition_path: Option<String>,
}

/// The view of an optional string.
pub open spec fn opt_view(o: Option<String>) -> Option<Seq<char>> {
    match o {
        Some(s) => Some(s@),
        None => None,
    }
}

impl View for AudioCache {
    type V = CacheModel;

    closed spec fn view(&self) -> CacheModel {
        CacheModel {
            button_press: opt_view(self.button_press_path),
            transition: opt_view(self.transition_path),
        }
    }
}

impl AudioCache {
    /// An empty cache: no asset resolved yet.
    pub fn new() -> (r: Self)
        ensures
            r@ == CacheModel::empty(),
    {
        Self { button_press_path: None, transition_path: None }
    }

    /// First step of obtaining a path: the cached one, or the logical name
    /// to resolve. Nothing changes.
    pub fn lookup(&self, asset: Asset) -> (r: PathLookup)
        ensures
            match self@.slot(asset) {
                Some(p) => r is Cached && r->Cached_0@ == p,
                None => r is Resolve && r->Resolve_0@ == resource_name_spec(asset),
            },
    {
        let slot = match asset {
            Asset::ButtonPress => &self.button_press_path,
            Asset::Transition => &self.transition_path,
        };
        match slot {
            Some(path) => PathLookup::Cached(path.clone()),
            None => PathLookup::Resolve(asset.resource_name()),
        }
    }

    /// Second step: takes the resolver's answer for `asset`. A path already
    /// cached wins and is returned unchanged; otherwise a resolved path is
    /// stored and returned, and a failed resolution is reported and leaves
    /// the slot empty.
    pub fn record(
        &mut self,
        asset: Asset,
        resolved: Result<String, ResourceResolutionError>,
    ) -> (r: Result<String, ResourceResolutionError>)
        ensures
            final(self)@ == old(self)@.record(asset, resolved_view(resolved)),
            match (old(self)@.slot(asset), resolved) {
                (Some(p), _) => r is Ok && r->Ok_0@ == p,
                (None, Ok(s)) => r is Ok && r->Ok_0@ == s@,
                (None, Err(e)) => r == Err::<String, ResourceResolutionError>(e),
            },
    {
        let slot = match asset {
            Asset::ButtonPress => &mut self.button_press_path,
            Asset::Transition => &mut self.transition_path,
        };
        match slot {
            Some(path) => Ok(path.clone()),
            None => match resolved {
                Ok(path) => {
                    *slot = Some(path.clone());
                    Ok(path)
                },
                Err(e) => Err(e),
            },
        }
    }
}

/// The answer of the resolver as the model sees it.
pub open spec fn resolved_view(resolved: Result<String, ResourceResolutionError>) -> Option<Seq<char>> {
    match resolved {
        Ok(s) => Some(s@),
        Err(_) => None,
    }
}


/// One request for the path of `asset`, as a caller makes it with `lookup`
/// and, on a miss, `record`, where the resolver answers `answer` (`None`: the
/// asset was not found). Gives the new state, the path the caller obtains,
/// and whether the resolver was asked.
pub open spec fn request(
    m: CacheModel,
    asset: Asset,
    answer: Option<Seq<char>>,
) -> (CacheModel, Option<Seq<char>>, bool) {
    match m.slot(asset) {
        Some(p) => (m, Some(p), false),
        None => (m.record(asset, answer), answer, true),
    }
}

/// `n` requests for the path of `asset` one after the other, as the lock
/// orders them, against a resolver that answers `answer` each time: the final
/// state, the path each request obtained, and how often the resolver was asked.
pub open spec fn requests(
    m: CacheModel,
    asset: Asset,
    answer: Option<Seq<char>>,
    n: nat,
) -> (CacheModel, Seq<Option<Seq<char>>>, nat)
    decreases n,
{
    if n == 0 {
        (m, Seq::empty(), 0)
    } else {
        let (m1, seen, calls) = requests(m, asset, answer, (n - 1) as nat);
        let (m2, got, asked) = request(m1, asset, answer);
        (m2, seen.push(got), if asked { calls + 1 } else { calls })
    }
}

/// Once an asset's path is cached, any number of further requests obtain
/// exactly that path, leave the cache as it is, and never ask the resolver.
pub proof fn lemma_cached_requests(m: CacheModel, asset: Asset, answer: Option<Seq<char>>, n: nat)
    requires
        m.slot(asset) is Some,
    ensures
        requests(m, asset, answer, n) == (m, Seq::new(n, |i: int| m.slot(asset)), 0nat),
    decreases n,
{
    if n > 0 {
        lemma_cached_requests(m, asset, answer, (n - 1) as nat);
        assert(Seq::new((n - 1) as nat, |i: int| m.slot(asset)).push(m.slot(asset)) =~= Seq::new(
            n,
            |i: int| m.slot(asset),
        ));
    } else {
        assert(Seq::<Option<Seq<char>>>::empty() =~= Seq::new(0, |i: int| m.slot(asset)));
    }
}

/// Resolution is idempotent: repeated requests for one asset against the same
/// resolver all obtain the same path, and the resolver is asked at most once,
/// provided that the path is cached already or the resolver finds the asset.
pub proof fn lemma_requests_idempotent(m: CacheModel, asset: Asset, answer: Option<Seq<char>>, n: nat)
    requires
        m.slot(asset) is Some || answer is Some,
    ensures
        requests(m, asset, answer, n).2 <= 1,
        forall|i: int|
            0 <= i < n ==> #[trigger] requests(m, asset, answer, n).1[i] == requests(
                m,
                asset,
                answer,
                n,
            ).1[0],
        n > 0 ==> requests(m, asset, answer, n).1[0] is Some,
        n > 0 ==> requests(m, asset, answer, n).0.slot(asset) == requests(m, asset, answer, n).1[0],
{
    if m.slot(asset) is Some {
        lemma_cached_requests(m, asset, answer, n);
    } else if n > 0 {
        lemma_first_use_requests(m, asset, answer->Some_0, n);
    }
}

/// Concurrent first use: `n >= 1` requests for an asset that is not cached
/// yet, serialised by the lock, ask the resolver exactly once, all obtain the
/// path it found, and fill that one slot and no other.
pub proof fn lemma_first_use_requests(m: CacheModel, asset: Asset, path: Seq<char>, n: nat)
    requires
        m.slot(asset) is None,
        n >= 1,
    ensures
        requests(m, asset, Some(path), n) == (
            m.record(asset, Some(path)),
            Seq::new(n, |i: int| Some(path)),
            1nat,
        ),
        m.record(asset, Some(path)).slot(asset) == Some(path),
        forall|other: Asset|
            other != asset ==> #[trigger] m.record(asset, Some(path)).slot(other) == m.slot(other),
    decreases n,
{
    let m1 = m.record(asset, Some(path));
    assert(m1.slot(asset) == Some(path));
    if n == 1 {
        assert(requests(m, asset, Some(path), 0) == (m, Seq::<Option<Seq<char>>>::empty(), 0nat));
        assert(Seq::<Option<Seq<char>>>::empty().push(Some(path)) =~= Seq::new(
            1,
            |i: int| Some(path),
        ));
    } else {
        lemma_first_use_requests(m, asset, path, (n - 1) as nat);
        assert(Seq::new((n - 1) as nat, |i: int| Some(path)).push(Some(path)) =~= Seq::new(
            n,
            |i: int| Some(path),
        ));
    }
}

/// The two sounds are bundled under distinct logical names, and filling the
/// slot of one asset leaves the slot of the other as it was. So, from an
/// empty cache, two different resolved paths stay apart: neither request
/// obtains the other's path.
pub proof fn lemma_distinct_assets(m: CacheModel, a: Asset, b: Asset, pa: Seq<char>, pb: Seq<char>)
    requires
        m == CacheModel::empty(),
        a != b,
        pa != pb,
    ensures
        resource_name_spec(a) != resource_name_spec(b),
        m.record(a, Some(pa)).slot(b) is None,
        m.record(a, Some(pa)).record(b, Some(pb)).slot(a) == Some(pa),
        m.record(a, Some(pa)).record(b, Some(pb)).slot(b) == Some(pb),
        m.record(a, Some(pa)).record(b, Some(pb)).slot(a) != m.record(a, Some(pa)).record(
            b,
            Some(pb),
        ).slot(b),
{
    reveal_strlit("audio/button-press.wav");
    reveal_strlit("audio/alarm-kitchen.mp3");
    assert(resource_name_spec(Asset::ButtonPress)[6] != resource_name_spec(Asset::Transition)[6]);
}

} // verus!
