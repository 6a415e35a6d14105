use vstd::prelude::*;
use vstd::string::*;

verus! {

/// A library that a plugin can request.
#[derive(Debug, Clone, Copy, PartialEq, Eq, Structural)]
pub enum PluginDependency {
    Dangerous,
    Game,
    Input,
    UI,
    System,
    Matrix,
    // The following libraries are from the standard library
    Math,
    Table,
    Bit32,
    String,
    Utf8,
}

/// The name under which a dependency is shown to the user.
pub open spec fn dependency_name(dependency: PluginDependency) -> Seq<char> {
    match dependency {
        PluginDependency::Dangerous => "Dangerous"@,
        PluginDependency::Game => "Game"@,
        PluginDependency::Input => "Input"@,
        PluginDependency::UI => "UI"@,
        PluginDependency::System => "System"@,
        PluginDependency::Matrix => "Matrix"@,
        PluginDependency::Math => "Math"@,
        PluginDependency::Table => "Table"@,
        PluginDependency::Bit32 => "Bit32"@,
        PluginDependency::String => "String"@,
        PluginDependency::Utf8 => "Utf8"@,
    }
}

impl PluginDependency {
    /// The name under which the dependency is shown to the user.
    pub fn display_name(&self) -> (r: String)
        ensures
            r@ == dependency_name(*self),
    {
        match self {
            PluginDependency::Dangerous => String::from_str("Dangerous"),
            PluginDependency::Game => String::from_str("Game"),
            PluginDependency::Input => String::from_str("Input"),
            PluginDependency::UI => String::from_str("UI"),
            PluginDependency::System => String::from_str("System"),
            PluginDependency::Math => String::from_str("Math"),
            PluginDependency::Table => String::from_str("Table"),
            PluginDependency::Bit32 => String::from_str("Bit32"),
            PluginDependency::String => String::from_str("String"),
            PluginDependency::Utf8 => String::from_str("Utf8"),
            PluginDependency::Matrix => String::from_str("Matrix"),
        }
    }
}

/// The characters of every string of `strings`.
pub open spec fn strings_view(strings: Seq<String>) -> Seq<Seq<char>> {
    strings.map_values(|s: String| s@)
}

/// A copy of a list of strings.
pub fn copy_strings(strings: &Vec<String>) -> (r: Vec<String>)
    ensures
        strings_view(r@) == strings_view(strings@),
{
    let mut r: Vec<String> = Vec::new();
    let mut i: usize = 0;
    while i < strings.len()
        invariant
            i <= strings@.len(),
            r@.len() == i,
            forall|j: int| 0 <= j < i ==> #[trigger] r@[j]@ == strings@[j]@,
        decreases strings@.len() - i,
    {
        r.push(strings[i].clone());
        i = i + 1;
    }
    assert(strings_view(r@) =~= strings_view(strings@));
    r
}

/// A copy of a list of dependencies.
pub fn copy_dependencies(dependencies: &Vec<PluginDependency>) -> (r: Vec<PluginDependency>)
    ensures
        r@ == dependencies@,
{
    let mut r: Vec<PluginDependency> = Vec::new();
    let mut i: usize = 0;
    while i < dependencies.len()
        invariant
            i <= dependencies@.len(),
            r@ == dependencies@.subrange(0, i as int),
        decreases dependencies@.len() - i,
    {
        r.push(dependencies[i]);
        i = i + 1;
    }
    assert(r@ =~= dependencies@);
    r
}

/// Plugin information as the file `info.toml` of a plugin holds it.
///
/// See [`PluginInfo`] for information about the individual fields.
pub struct PluginInfoContent {
    pub name: String,
    pub authors: Vec<String>,
    pub version: String,
    pub dependencies: Vec<PluginDependency>,
    pub description: String,
}

/// Plugin information.
///
/// Contains all information about a plugin, such as name and authors.
/// These information are loaded from the plugin `info.toml` file.
pub struct PluginInfo {
    /// Path to the plugin
    pub path: String,
    /// The plugin's name
    pub name: String,
    /// The list of authors
    pub authors: Vec<String>,
    /// The plugin's version
    pub version: String,
    /// List of libraries requested by the plugin.
    ///
    /// A plugin only is granted access to the library it requests.
    pub dependencies: Vec<PluginDependency>,
    /// Plugin description.
    ///
    /// A short plugin description that explains what the plugin does.
    pub description: String,
}

/// The information of a plugin, as characters.
pub struct PluginInfoView {
    pub path: Seq<char>,
    pub name: Seq<char>,
    pub authors: Seq<Seq<char>>,
    pub version: Seq<char>,
    pub dependencies: Seq<PluginDependency>,
    pub description: Seq<char>,
}

impl View for PluginInfo {
    type V = PluginInfoView;

    open spec fn view(&self) -> PluginInfoView {
        PluginInfoView {
            path: self.path@,
            name: self.name@,
            authors: strings_view(self.authors@),
            version: self.version@,
            dependencies: self.dependencies@,
            description: self.description@,
        }
    }
}

impl PluginInfo {
    /// The information of the plugin stored at `path`, whose `info.toml` holds `content`.
    pub fn from_content(path: String, content: PluginInfoContent) -> (info: PluginInfo)
        ensures
            info.path == path,
            info.name == content.name,
            info.authors == content.authors,
            info.version == content.version,
            info.dependencies == content.dependencies,
            info.description == content.description,
    {
        PluginInfo {
            path,
            name: content.name,
            authors: content.authors,
            version: content.version,
            dependencies: content.dependencies,
            description: content.description,
        }
    }

    /// A copy of this information.
    pub fn duplicate(&self) -> (r: PluginInfo)
        ensures
            r@ == self@,
    {
        PluginInfo {
            path: self.path.clone(),
            name: self.name.clone(),
            authors: copy_strings(&self.authors),
            version: self.version.clone(),
            dependencies: copy_dependencies(&self.dependencies),
            description: self.description.clone(),
        }
    }
}

/// Errors of a plugin.
#[derive(Debug)]
pub enum PluginError {
    Error(String),
    NotEnabledError,
    NoMainFile,
    ScriptError(String),
    NotLoaded,
}

/// A plugin error, with its messages as characters.
pub enum PluginErrorView {
    Error(Seq<char>),
    NotEnabledError,
    NoMainFile,
    ScriptError(Seq<char>),
    NotLoaded,
}

impl View for PluginError {
    type V = PluginErrorView;

    open spec fn view(&self) -> PluginErrorView {
        match self {
            PluginError::Error(m) => PluginErrorView::Error(m@),
            PluginError::NotEnabledError => PluginErrorView::NotEnabledError,
            PluginError::NoMainFile => PluginErrorView::NoMainFile,
            PluginError::ScriptError(m) => PluginErrorView::ScriptError(m@),
            PluginError::NotLoaded => PluginErrorView::NotLoaded,
        }
    }
}

impl PluginError {
    /// A copy of this error.
    pub fn duplicate(&self) -> (r: PluginError)
        ensures
            r@ == self@,
    {
        match self {
            PluginError::Error(m) => PluginError::Error(m.clone()),
            PluginError::NotEnabledError => PluginError::NotEnabledError,
            PluginError::NoMainFile => PluginError::NoMainFile,
            PluginError::ScriptError(m) => PluginError::ScriptError(m.clone()),
            PluginError::NotLoaded => PluginError::NotLoaded,
        }
    }
}

/// Which of the optional functions a loaded plugin defines.
#[derive(Debug, Clone, Copy, PartialEq, Eq, Structural)]
pub struct PluginContext {
    pub on_load: bool,
    pub on_unload: bool,
    pub on_update: bool,
    pub on_enable: bool,
    pub on_disable: bool,
    pub on_install: bool,
    pub on_uninstall: bool,
}

/// The state of a plugin as the plugin manager reports it.
#[derive(Debug)]
pub enum PluginState {
    Error(PluginError),
    Unloaded,
    Loaded(PluginContext),
}

/// A plugin as the plugin manager reports it.
pub struct Plugin {
    pub enabled: bool,
    pub state: PluginState,
    pub info: PluginInfo,
}

} // verus!
