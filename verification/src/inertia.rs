//! Settings of the Inertia.js integration.
use vstd::prelude::*;
use vstd::string::*;

verus! {

/// What the settings are: an asset version, if any, and the root view.
pub struct InertiaView {
    pub version: Option<Seq<char>>,
    pub root_view: Seq<char>,
}

/// How pages are served in development through Vite.
pub struct ViteSettings {
    pub port: u16,
    /// The entry script.
    pub main: String,
    pub lang: String,
    pub title: String,
    /// Whether the React refresh preamble is included.
    pub react: bool,
}

/// The Vite settings of the application: port 3000, the TypeScript entry point,
/// English, titled Ruskit, with React.
pub fn app_vite_settings() -> (v: ViteSettings)
    ensures
        v.port == 3000,
        v.main@ == "resources/js/app.tsx"@,
        v.lang@ == "en"@,
        v.title@ == "Ruskit"@,
        v.react,
{
    ViteSettings {
        port: 3000,
        main: String::from_str("resources/js/app.tsx"),
        lang: String::from_str("en"),
        title: String::from_str("Ruskit"),
        react: true,
    }
}

/// Settings of the Inertia.js integration.
pub struct InertiaConfig {
    version: Option<String>,
    root_view: String,
}

impl View for InertiaConfig {
    type V = InertiaView;

    closed spec fn view(&self) -> InertiaView {
        InertiaView {
            version: match self.version { Some(v) => Some(v@), None => None },
            root_view: self.root_view@,
        }
    }
}

impl Clone for InertiaConfig {
    fn clone(&self) -> (c: Self)
        ensures
            c@ == self@,
    {
        InertiaConfig { version: self.version.clone(), root_view: self.root_view.clone() }
    }
}

impl InertiaConfig {
    /// No version, and the root view `app`.
    pub fn new() -> (c: Self)
        ensures
            c@ == (InertiaView { version: None, root_view: "app"@ }),
    {
        InertiaConfig { version: None, root_view: String::from_str("app") }
    }

    /// Sets the asset version.
    pub fn with_version(self, version: String) -> (c: Self)
        ensures
            c@ == (InertiaView { version: Some(version@), ..self@ }),
    {
        let mut c = self;
        c.version = Some(version);
        c
    }

    /// Sets the root view.
    pub fn with_root_view(self, root_view: String) -> (c: Self)
        ensures
            c@ == (InertiaView { root_view: root_view@, ..self@ }),
    {
        let mut c = self;
        c.root_view = root_view;
        c
    }

    /// The asset version, if set.
    pub fn version(&self) -> (v: Option<&str>)
        ensures
            match self@.version { Some(s) => v matches Some(x) && x@ == s, None => v is None },
    {
        match &self.version {
            Some(s) => Some(s.as_str()),
            None => None,
        }
    }

    /// The Vite settings these settings are served with: port 3000, the JavaScript
    /// entry point, English, titled Ruskit.
    pub fn to_vite_settings(self) -> (v: ViteSettings)
        ensures
            v.port == 3000,
            v.main@ == "resources/js/app.jsx"@,
            v.lang@ == "en"@,
            v.title@ == "Ruskit"@,
            !v.react,
    {
        ViteSettings {
            port: 3000,
            main: String::from_str("resources/js/app.jsx"),
            lang: String::from_str("en"),
            title: String::from_str("Ruskit"),
            react: false,
        }
    }

    /// The root view.
    pub fn root_view(&self) -> (v: &str)
        ensures
            v@ == self@.root_view,
    {
        self.root_view.as_str()
    }
}

} // verus!
