use vstd::prelude::*;
use vstd::string::StringExecFns;

verus! {

/// The name the application reports when no configuration file is given.
pub open spec fn default_name() -> Seq<char> {
    "test-rust-app"@
}

/// The version the application reports when no configuration file is given.
pub open spec fn default_version() -> Seq<char> {
    "0.1.0"@
}

/// The feature labels the application reports when no configuration file is given.
pub open spec fn default_features() -> Seq<Seq<char>> {
    seq!["basic"@]
}

/// Whether `c` is the built-in configuration.
pub open spec fn is_default_config(c: Config) -> bool {
    &&& c.name@ == default_name()
    &&& c.version@ == default_version()
    &&& c.features_view() == default_features()
}

/// What the application reports about itself: a name, a version and an
/// ordered list of feature labels.
#[derive(Debug, Clone)]
pub struct Config {
    pub name: String,
    pub version: String,
    pub features: Vec<String>,
}

/// The characters of each label, in order.
pub open spec fn labels_view(v: Seq<String>) -> Seq<Seq<char>> {
    v.map_values(|s: String| s@)
}

impl Config {
    /// The feature labels as character sequences, in order.
    pub open spec fn features_view(&self) -> Seq<Seq<char>> {
        labels_view(self.features@)
    }

    /// Two configurations agree field by field, keeping the order of features.
    pub open spec fn same_as(&self, other: &Config) -> bool {
        &&& self.name@ == other.name@
        &&& self.version@ == other.version@
        &&& self.features_view() == other.features_view()
    }

    /// Builds a configuration from its three fields.
    pub fn new(name: String, version: String, features: Vec<String>) -> (r: Config)
        ensures
            r.name@ == name@,
            r.version@ == version@,
            r.features_view() == labels_view(features@),
    {
        Config { name, version, features }
    }

    /// Whether two configurations agree field by field, keeping the order of
    /// features.
    pub fn same_fields(&self, other: &Config) -> (r: bool)
        ensures
            r == self.same_as(other),
    {
        if self.name != other.name || self.version != other.version {
            return false;
        }
        if self.features.len() != other.features.len() {
            assert(self.features_view().len() != other.features_view().len());
            return false;
        }
        let n = self.features.len();
        let mut i: usize = 0;
        while i < n
            invariant
                n == self.features@.len(),
                n == other.features@.len(),
                i <= n,
                forall|j: int| 0 <= j < i ==> self.features@[j]@ == other.features@[j]@,
            decreases n - i,
        {
            if self.features[i] != other.features[i] {
                assert(self.features_view()[i as int] != other.features_view()[i as int]);
                return false;
            }
            i += 1;
        }
        assert(self.features_view() =~= other.features_view());
        true
    }

    /// The feature labels joined by a comma and a space.
    pub fn features_line(&self) -> (r: String)
        ensures
            r@ == joined(self.features_view(), ", "@),
    {
        let n = self.features.len();
        if n == 0 {
            return String::new();
        }
        let mut acc = self.features[0].clone();
        let mut i: usize = 1;
        assert(self.features_view().take(1) =~= seq![self.features_view()[0]]);
        while i < n
            invariant
                n == self.features@.len(),
                1 <= i <= n,
                acc@ == joined(self.features_view().take(i as int), ", "@),
            decreases n - i,
        {
            acc.append(", ");
            acc.append(self.features[i].as_str());
            assert(self.features_view().take(i + 1).drop_last() =~= self.features_view().take(
                i as int,
            ));
            i += 1;
        }
        assert(self.features_view().take(n as int) =~= self.features_view());
        acc
    }
}

/// The labels in order, with `sep` between each two neighbours.
pub open spec fn joined(v: Seq<Seq<char>>, sep: Seq<char>) -> Seq<char>
    decreases v.len(),
{
    if v.len() == 0 {
        Seq::empty()
    } else if v.len() == 1 {
        v[0]
    } else {
        joined(v.drop_last(), sep) + sep + v.last()
    }
}

impl Default for Config {
    fn default() -> (r: Config)
        ensures
            r.name@ == default_name(),
            r.version@ == default_version(),
            r.features_view() == default_features(),
    {
        let features: Vec<String> = vec![String::from_str("basic")];
        let r = Config {
            name: String::from_str("test-rust-app"),
            version: String::from_str("0.1.0"),
            features,
        };
        assert(r.features_view() =~= default_features());
        r
    }
}

/// The built-in configuration has a non-empty name, a non-empty version and
/// at least one feature label.
pub proof fn lemma_default_is_complete(c: Config)
    requires
        is_default_config(c),
    ensures
        c.name@.len() > 0,
        c.version@.len() > 0,
        c.features@.len() > 0,
{
    reveal_strlit("test-rust-app");
    reveal_strlit("0.1.0");
    assert(c.features_view().len() == 1);
}

} // verus!
