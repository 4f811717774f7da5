use vstd::prelude::*;

verus! {

/// The key of the number of rows to read per batch.
pub const CSV_BATCH_SIZE: &'static str = "ballista.csv.batchSize";

/// Settings as text: key and value of each entry.
pub type SettingsView = Seq<(Seq<char>, Seq<char>)>;

pub open spec fn settings_view(s: Seq<(String, String)>) -> SettingsView {
    s.map_values(|p: (String, String)| (p.0@, p.1@))
}

pub open spec fn option_view(o: Option<String>) -> Option<Seq<char>> {
    match o {
        Some(s) => Some(s@),
        None => None,
    }
}

/// The value that `entries` gives `key`: the value of its last entry with that
/// key, as a map built by inserting the entries in order would hold.
pub open spec fn lookup(entries: SettingsView, key: Seq<char>) -> Option<Seq<char>>
    decreases entries.len(),
{
    if entries.len() == 0 {
        None
    } else if entries.last().0 == key {
        Some(entries.last().1)
    } else {
        lookup(entries.drop_last(), key)
    }
}

/// The default that a catalog gives `key`: that of its last entry with that key.
pub open spec fn catalog_default(catalog: Seq<ConfigSetting>, key: Seq<char>) -> Option<Seq<char>>
    decreases catalog.len(),
{
    if catalog.len() == 0 {
        None
    } else if catalog.last().key@ == key {
        option_view(catalog.last().default_value)
    } else {
        catalog_default(catalog.drop_last(), key)
    }
}

/// An override where there is one, else the catalog's default, else nothing.
pub open spec fn resolve(
    overrides: SettingsView,
    catalog: Seq<ConfigSetting>,
    key: Seq<char>,
) -> Option<Seq<char>> {
    match lookup(overrides, key) {
        Some(v) => Some(v),
        None => catalog_default(catalog, key),
    }
}

/// The defaults of the built-in catalog: "1024" rows per batch.
pub open spec fn builtin_default(key: Seq<char>) -> Option<Seq<char>> {
    if key == CSV_BATCH_SIZE@ {
        Some("1024"@)
    } else {
        None
    }
}

/// Looks `key` up in `entries`; the last entry with that key wins.
pub fn lookup_setting(entries: &Vec<(String, String)>, key: &str) -> (r: Option<String>)
    ensures
        option_view(r) == lookup(settings_view(entries@), key@),
{
    let k = key.to_owned();
    let mut i: usize = entries.len();
    assert(entries@.subrange(0, i as int) =~= entries@);
    while i > 0
        invariant
            i <= entries@.len(),
            k@ == key@,
            lookup(settings_view(entries@), key@) == lookup(
                settings_view(entries@.subrange(0, i as int)),
                key@,
            ),
        decreases i,
    {
        assert(settings_view(entries@.subrange(0, i as int)).drop_last() =~= settings_view(
            entries@.subrange(0, i - 1),
        ));
        assert(settings_view(entries@.subrange(0, i as int)).last() == (
            entries@[i - 1].0@,
            entries@[i - 1].1@,
        ));
        let same = entries[i - 1].0.eq(&k);
        if same {
            return Some(entries[i - 1].1.clone());
        }
        i -= 1;
    }
    None
}

/// A setting of the catalog: its key, what it is for, and its default value.
#[derive(Debug, Clone)]
pub struct ConfigSetting {
    pub key: String,
    pub description: String,
    pub default_value: Option<String>,
}

impl ConfigSetting {
    pub fn new(key: &str, description: &str, default_value: Option<&str>) -> (r: Self)
        ensures
            r.key@ == key@,
            r.description@ == description@,
            r.default_value.is_some() == default_value.is_some(),
            r.default_value matches Some(d) ==> d@ == default_value->Some_0@,
    {
        let default_value = match default_value {
            Some(d) => Some(d.to_owned()),
            None => None,
        };
        ConfigSetting { key: key.to_owned(), description: description.to_owned(), default_value }
    }

    pub fn default_value(&self) -> (r: Option<String>)
        ensures
            option_view(r) == option_view(self.default_value),
    {
        match &self.default_value {
            Some(d) => Some(d.clone()),
            None => None,
        }
    }
}

/// The settings of a context over the built-in catalog of defaults.
pub struct Configs {
    configs: Vec<ConfigSetting>,
    settings: Vec<(String, String)>,
}

impl Configs {
    /// The overrides that these configs were made with.
    pub closed spec fn overrides(&self) -> SettingsView {
        settings_view(self.settings@)
    }

    /// The value that these configs give `key`.
    pub closed spec fn value_of(&self, key: Seq<char>) -> Option<Seq<char>> {
        resolve(settings_view(self.settings@), self.configs@, key)
    }

    pub fn new(settings: Vec<(String, String)>) -> (r: Self)
        ensures
            r.overrides() == settings_view(settings@),
            forall|key: Seq<char>| #[trigger]
                r.value_of(key) == match lookup(settings_view(settings@), key) {
                    Some(v) => Some(v),
                    None => builtin_default(key),
                },
    {
        let csv_batch_size = ConfigSetting::new(
            CSV_BATCH_SIZE,
            "Number of rows to read per batch",
            Some("1024"),
        );
        let mut configs: Vec<ConfigSetting> = Vec::new();
        configs.push(csv_batch_size);
        let r = Configs { configs, settings };
        assert(r.configs@.len() == 1);
        assert(catalog_default(r.configs@.drop_last(), CSV_BATCH_SIZE@) == None::<Seq<char>>);
        assert forall|key: Seq<char>| #[trigger]
            r.value_of(key) == match lookup(settings_view(settings@), key) {
                Some(v) => Some(v),
                None => builtin_default(key),
            } by {
            assert(r.configs@.drop_last().len() == 0);
            assert(catalog_default(r.configs@.drop_last(), key) == None::<Seq<char>>);
            assert(r.configs@.last() == r.configs@[0]);
        }
        r
    }

    /// The override of `name` where there is one, else its default in the
    /// catalog, else nothing.
    pub fn get_setting(&self, name: &str) -> (r: Option<String>)
        ensures
            option_view(r) == self.value_of(name@),
    {
        match lookup_setting(&self.settings, name) {
            Some(v) => Some(v),
            None => {
                let k = name.to_owned();
                let mut i: usize = self.configs.len();
                assert(self.configs@.subrange(0, i as int) =~= self.configs@);
                while i > 0
                    invariant
                        i <= self.configs@.len(),
                        k@ == name@,
                        lookup(settings_view(self.settings@), name@).is_none(),
                        catalog_default(self.configs@, name@) == catalog_default(
                            self.configs@.subrange(0, i as int),
                            name@,
                        ),
                    decreases i,
                {
                    assert(self.configs@.subrange(0, i as int).drop_last() =~= self.configs@.subrange(
                        0,
                        i - 1,
                    ));
                    assert(self.configs@.subrange(0, i as int).last() == self.configs@[i - 1]);
                    if self.configs[i - 1].key.eq(&k) {
                        return self.configs[i - 1].default_value();
                    }
                    i -= 1;
                }
                None
            },
        }
    }

    /// The number of rows to read per batch, as text.
    pub fn csv_batch_size(&self) -> (r: Option<String>)
        ensures
            option_view(r) == self.value_of(CSV_BATCH_SIZE@),
    {
        self.get_setting(CSV_BATCH_SIZE)
    }
}

} // verus!

verus! {

/// A copy of a list of settings.
pub fn copy_settings(s: &Vec<(String, String)>) -> (r: Vec<(String, String)>)
    ensures
        settings_view(r@) == settings_view(s@),
{
    let mut r: Vec<(String, String)> = Vec::new();
    let mut i: usize = 0;
    while i < s.len()
        invariant
            i <= s@.len(),
            r@.len() == i,
            forall|j: int|
                0 <= j < i ==> (#[trigger] r@[j]).0@ == s@[j].0@ && r@[j].1@ == s@[j].1@,
        decreases s@.len() - i,
    {
        let k = s[i].0.clone();
        let v = s[i].1.clone();
        r.push((k, v));
        i += 1;
    }
    assert(settings_view(r@) =~= settings_view(s@));
    r
}

} // verus!
