//! The seed, the plugin that carries it, and the shared configuration it is
//! published into.

use vstd::prelude::*;

verus! {

/// What a generator is seeded from: a number, or any text.
#[derive(Debug, PartialEq, Eq, Hash, PartialOrd, Ord)]
pub enum Seed {
    Number(u64),
    String(String),
}

/// The mathematical value of a [`Seed`].
pub ghost enum SeedView {
    Number(u64),
    Text(Seq<char>),
}

impl View for Seed {
    type V = SeedView;

    open spec fn view(&self) -> SeedView {
        match *self {
            Seed::Number(n) => SeedView::Number(n),
            Seed::String(s) => SeedView::Text(s@),
        }
    }
}

impl Clone for Seed {
    fn clone(&self) -> (copy: Self)
        ensures
            copy@ == self@,
    {
        match self {
            Seed::Number(n) => Seed::Number(*n),
            Seed::String(s) => Seed::String(s.clone()),
        }
    }
}

/// The value of a seed that may be absent.
pub open spec fn seed_option_view(seed: Option<Seed>) -> Option<SeedView> {
    match seed {
        Some(s) => Some(s@),
        None => None,
    }
}

/// The part of an application's shared configuration that holds the seed:
/// at most one entry, which `add_resource` sets and nothing removes.
#[derive(Debug, PartialEq, Eq)]
pub struct Resources {
    seed: Option<Seed>,
}

impl View for Resources {
    type V = Option<SeedView>;

    closed spec fn view(&self) -> Option<SeedView> {
        seed_option_view(self.seed)
    }
}

impl Resources {
    /// A configuration without a seed.
    pub fn new() -> (resources: Self)
        ensures
            resources@ is None,
    {
        Resources { seed: None }
    }

    /// Stores `seed` as the one seed entry, in place of an earlier one.
    pub fn add_resource(&mut self, seed: Seed)
        ensures
            final(self)@ == Some(seed@),
    {
        self.seed = Some(seed);
    }

    /// The seed entry, if there is one.
    pub fn get(&self) -> (entry: Option<&Seed>)
        ensures
            match entry {
                Some(seed) => self@ == Some(seed@),
                None => self@ is None,
            },
    {
        self.seed.as_ref()
    }
}

/// Injects a random number generator, seeded or not, into an application's
/// systems.
///
/// Built without a seed, from a text, or from a number. Once it has been
/// registered with `build`, each system makes its own `Rng` from the
/// configuration, which keeps a system's numbers independent of the order in
/// which systems run.
#[derive(Debug, PartialEq, Eq, Hash, PartialOrd, Ord)]
pub struct RngPlugin {
    seed: Option<Seed>,
}

impl View for RngPlugin {
    type V = Option<SeedView>;

    closed spec fn view(&self) -> Option<SeedView> {
        seed_option_view(self.seed)
    }
}

/// The seed entry after a plugin that carries `plugin` was registered with a
/// configuration whose entry was `before`.
pub open spec fn published(plugin: Option<SeedView>, before: Option<SeedView>) -> Option<SeedView> {
    match plugin {
        Some(seed) => Some(seed),
        None => before,
    }
}

impl RngPlugin {
    /// Registers the plugin: publishes a copy of its seed, if it carries one,
    /// and leaves the configuration as it was otherwise.
    pub fn build(&self, app: &mut Resources)
        ensures
            final(app)@ == published(self@, old(app)@),
    {
        if let Some(seed) = &self.seed {
            app.add_resource(seed.clone());
        }
    }
}

impl Default for RngPlugin {
    fn default() -> (plugin: Self)
        ensures
            plugin@ is None,
    {
        RngPlugin { seed: None }
    }
}

impl Clone for RngPlugin {
    fn clone(&self) -> (copy: Self)
        ensures
            copy@ == self@,
    {
        match &self.seed {
            Some(seed) => RngPlugin { seed: Some(seed.clone()) },
            None => RngPlugin { seed: None },
        }
    }
}

impl From<String> for RngPlugin {
    fn from(seed: String) -> (plugin: Self)
        ensures
            plugin@ == Some(SeedView::Text(seed@)),
    {
        RngPlugin { seed: Some(Seed::String(seed)) }
    }
}

impl vstd::std_specs::convert::FromSpecImpl<String> for RngPlugin {
    open spec fn obeys_from_spec() -> bool {
        true
    }

    closed spec fn from_spec(seed: String) -> Self {
        RngPlugin { seed: Some(Seed::String(seed)) }
    }
}

impl From<&str> for RngPlugin {
    fn from(seed: &str) -> (plugin: Self)
        ensures
            plugin@ == Some(SeedView::Text(seed@)),
    {
        RngPlugin { seed: Some(Seed::String(seed.to_owned())) }
    }
}

/// The text is copied, and a contract cannot name the copy: what `from`
/// returns for a text slice is stated by its own `ensures`, over the plugin's
/// value.
impl vstd::std_specs::convert::FromSpecImpl<&str> for RngPlugin {
    open spec fn obeys_from_spec() -> bool {
        false
    }

    open spec fn from_spec(seed: &str) -> Self {
        arbitrary()
    }
}

impl From<u64> for RngPlugin {
    fn from(seed: u64) -> (plugin: Self)
        ensures
            plugin@ == Some(SeedView::Number(seed)),
    {
        RngPlugin { seed: Some(Seed::Number(seed)) }
    }
}

impl vstd::std_specs::convert::FromSpecImpl<u64> for RngPlugin {
    open spec fn obeys_from_spec() -> bool {
        true
    }

    closed spec fn from_spec(seed: u64) -> Self {
        RngPlugin { seed: Some(Seed::Number(seed)) }
    }
}

} // verus!
