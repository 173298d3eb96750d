//! Configuration model and the merge rules that pick between project,
//! global and default settings.  Reading configuration files, the
//! environment and the system keyring is I/O and happens outside the
//! crate; the values read are handed in as plain options.

use vstd::prelude::*;

verus! {

/// A user-declared tool: its schema travels as JSON text and its
/// command template names argument placeholders in braces.
#[derive(Debug)]
pub struct UserToolConfig {
    pub name: String,
    pub description: String,
    pub input_schema: String,
    pub command_template: String,
}

impl Clone for UserToolConfig {
    fn clone(&self) -> (res: Self)
        ensures
            res == *self,
    {
        UserToolConfig {
            name: self.name.clone(),
            description: self.description.clone(),
            input_schema: self.input_schema.clone(),
            command_template: self.command_template.clone(),
        }
    }
}

/// Model selection and keyring entry naming.
#[derive(Debug)]
pub struct ApiConfig {
    pub keyring_entry: Option<String>,
    pub default_model: String,
    pub edit_model: String,
    pub big_model: String,
}

impl Clone for ApiConfig {
    fn clone(&self) -> (res: Self)
        ensures
            res == *self,
    {
        ApiConfig {
            keyring_entry: self.keyring_entry.clone(),
            default_model: self.default_model.clone(),
            edit_model: self.edit_model.clone(),
            big_model: self.big_model.clone(),
        }
    }
}

/// The model used when no configuration names one.
pub fn default_model() -> (r: String)
    ensures
        r@ == "google/gemini-2.5-pro-preview-03-25"@,
{
    String::from_str("google/gemini-2.5-pro-preview-03-25")
}

/// The model used for edit requests when no configuration names one.
pub fn default_edit_model() -> (r: String)
    ensures
        r@ == "google/gemini-2.0-flash-001"@,
{
    String::from_str("google/gemini-2.0-flash-001")
}

/// The model used for large-context requests when no configuration
/// names one.
pub fn default_big_model() -> (r: String)
    ensures
        r@ == "google/gemini-2.5-pro-preview-03-25"@,
{
    String::from_str("google/gemini-2.5-pro-preview-03-25")
}

/// Holds when `c` carries the default model selection.
pub open spec fn is_default_api_config(c: ApiConfig) -> bool {
    &&& c.keyring_entry is None
    &&& c.default_model@ == default_model_text()
    &&& c.edit_model@ == default_edit_model_text()
    &&& c.big_model@ == default_big_model_text()
}

pub open spec fn default_model_text() -> Seq<char> {
    "google/gemini-2.5-pro-preview-03-25"@
}

pub open spec fn default_edit_model_text() -> Seq<char> {
    "google/gemini-2.0-flash-001"@
}

pub open spec fn default_big_model_text() -> Seq<char> {
    "google/gemini-2.5-pro-preview-03-25"@
}

impl Default for ApiConfig {
    fn default() -> (c: Self)
        ensures
            is_default_api_config(c),
    {
        ApiConfig {
            keyring_entry: None,
            default_model: default_model(),
            edit_model: default_edit_model(),
            big_model: default_big_model(),
        }
    }
}

/// The whole configuration of one session.
#[derive(Debug)]
pub struct Config {
    pub api: ApiConfig,
    pub usertools: Option<Vec<UserToolConfig>>,
    pub brave_search_api_key: Option<String>,
}

impl Clone for Config {
    fn clone(&self) -> (res: Self)
        ensures
            res.api == self.api,
            res.brave_search_api_key == self.brave_search_api_key,
            res.usertools matches Some(v) ==> self.usertools matches Some(w) && v@ == w@,
            res.usertools is None <==> self.usertools is None,
    {
        let usertools = match &self.usertools {
            Some(tools) => Some(clone_usertools(tools)),
            None => None,
        };
        Config {
            api: self.api.clone(),
            usertools,
            brave_search_api_key: self.brave_search_api_key.clone(),
        }
    }
}

/// Clones a list of user tool configurations element by element.
pub fn clone_usertools(tools: &Vec<UserToolConfig>) -> (res: Vec<UserToolConfig>)
    ensures
        res@ == tools@,
{
    let mut res: Vec<UserToolConfig> = Vec::new();
    let mut i: usize = 0;
    while i < tools.len()
        invariant
            i <= tools.len(),
            res@ == tools@.take(i as int),
        decreases tools.len() - i,
    {
        res.push(tools[i].clone());
        proof {
            assert(res@ =~= tools@.take(i + 1 as int));
        }
        i = i + 1;
    }
    proof {
        assert(tools@.take(tools@.len() as int) =~= tools@);
    }
    res
}

impl Default for Config {
    fn default() -> (c: Self)
        ensures
            is_default_api_config(c.api),
            c.usertools is None,
            c.brave_search_api_key is None,
    {
        Config { api: ApiConfig::default(), usertools: None, brave_search_api_key: None }
    }
}

impl Config {
    /// Picks the configuration for a session: a project configuration
    /// wins over a global one, and defaults stand in when neither was
    /// found.  The caller reads the two files and hands in what it
    /// parsed.
    pub fn load(project: Option<Config>, global: Option<Config>) -> (c: Config)
        ensures
            project matches Some(p) ==> c == p,
            project is None ==> (global matches Some(g) ==> c == g),
            project is None && global is None ==> {
                &&& is_default_api_config(c.api)
                &&& c.usertools is None
                &&& c.brave_search_api_key is None
            },
    {
        match (project, global) {
            (Some(proj), _) => proj,
            (None, Some(glob)) => glob,
            (None, None) => Config::default(),
        }
    }

    /// Applies environment overrides: a non-empty value replaces the
    /// corresponding field, an empty or missing one leaves it alone.
    pub fn apply_env_overrides(
        &mut self,
        big_model: Option<String>,
        edit_model: Option<String>,
        brave_key: Option<String>,
    )
        ensures
            final(self).api.big_model@ == (if big_model is Some && big_model->0@.len() > 0 {
                big_model->0@
            } else {
                old(self).api.big_model@
            }),
            final(self).api.edit_model@ == (if edit_model is Some && edit_model->0@.len() > 0 {
                edit_model->0@
            } else {
                old(self).api.edit_model@
            }),
            final(self).brave_search_api_key == (if brave_key is Some && brave_key->0@.len() > 0 {
                brave_key
            } else {
                old(self).brave_search_api_key
            }),
            final(self).api.keyring_entry == old(self).api.keyring_entry,
            final(self).api.default_model == old(self).api.default_model,
            final(self).usertools == old(self).usertools,
    {
        if let Some(m) = big_model {
            if !m.as_str().is_empty() {
                self.api.big_model = m;
            }
        }
        if let Some(m) = edit_model {
            if !m.as_str().is_empty() {
                self.api.edit_model = m;
            }
        }
        if let Some(k) = brave_key {
            if !k.as_str().is_empty() {
                self.brave_search_api_key = Some(k);
            }
        }
    }
}

} // verus!
