use vstd::prelude::*;

verus! {

/// The operating system whose directory conventions apply.
#[derive(Debug, Clone, Copy, PartialEq, Eq, Structural)]
pub enum Platform {
    Linux,
    MacOs,
    Windows,
}

/// The environment variables the directory conventions read; `None` when unset.
pub struct PlatformEnv {
    pub platform: Platform,
    pub home: Option<String>,
    pub xdg_config_home: Option<String>,
    pub xdg_data_home: Option<String>,
    pub xdg_cache_home: Option<String>,
    pub appdata: Option<String>,
    pub local_appdata: Option<String>,
}

pub open spec fn or_default(v: Option<String>, d: Seq<char>) -> Seq<char> {
    match v {
        Some(s) => s@,
        None => d,
    }
}

pub open spec fn separator(p: Platform) -> char {
    if p == Platform::Windows { '\\' } else { '/' }
}

/// `base` extended by the relative component `comp`, as a path join does.
pub open spec fn join_path(base: Seq<char>, comp: Seq<char>, sep: char) -> Seq<char> {
    if base.len() == 0 {
        comp
    } else if base.last() == sep {
        base + comp
    } else {
        base.push(sep) + comp
    }
}

pub open spec fn home_of(env: PlatformEnv) -> Seq<char> {
    or_default(env.home, "/tmp"@)
}

pub open spec fn appdata_of(env: PlatformEnv) -> Seq<char> {
    or_default(env.appdata, "C:\\Users\\Default\\AppData\\Roaming"@)
}

pub open spec fn config_dir_of(env: PlatformEnv) -> Seq<char> {
    match env.platform {
        Platform::Linux => match env.xdg_config_home {
            Some(x) => join_path(x@, "gitbrowser"@, '/'),
            None => join_path(join_path(home_of(env), ".config"@, '/'), "gitbrowser"@, '/'),
        },
        Platform::MacOs => join_path(join_path(join_path(home_of(env), "Library"@, '/'), "Application Support"@, '/'), "GitBrowser"@, '/'),
        Platform::Windows => join_path(appdata_of(env), "GitBrowser"@, '\\'),
    }
}

pub open spec fn data_dir_of(env: PlatformEnv) -> Seq<char> {
    match env.platform {
        Platform::Linux => match env.xdg_data_home {
            Some(x) => join_path(x@, "gitbrowser"@, '/'),
            None => join_path(join_path(join_path(home_of(env), ".local"@, '/'), "share"@, '/'), "gitbrowser"@, '/'),
        },
        _ => config_dir_of(env),
    }
}

pub open spec fn cache_dir_of(env: PlatformEnv) -> Seq<char> {
    match env.platform {
        Platform::Linux => match env.xdg_cache_home {
            Some(x) => join_path(x@, "gitbrowser"@, '/'),
            None => join_path(join_path(home_of(env), ".cache"@, '/'), "gitbrowser"@, '/'),
        },
        Platform::MacOs => join_path(join_path(join_path(home_of(env), "Library"@, '/'), "Caches"@, '/'), "GitBrowser"@, '/'),
        Platform::Windows => join_path(
            join_path(or_default(env.local_appdata, "C:\\Users\\Default\\AppData\\Local"@), "GitBrowser"@, '\\'),
            "cache"@,
            '\\',
        ),
    }
}

pub(crate) fn join(base: String, comp: &str, sep: char) -> (r: String)
    ensures
        r@ == join_path(base@, comp@, sep),
{
    let n = base.as_str().unicode_len();
    if n == 0 {
        return comp.to_owned();
    }
    let mut s = base;
    if s.as_str().get_char(n - 1) != sep {
        let mut sep_text: Vec<char> = Vec::new();
        sep_text.push(sep);
        s.append(crate::errors::string_from_chars(&sep_text).as_str());
        assert(s@ =~= base@.push(sep));
    }
    s.append(comp);
    s
}

fn value_or(v: &Option<String>, d: &str) -> (r: String)
    ensures
        r@ == or_default(*v, d@),
{
    match v {
        Some(s) => s.clone(),
        None => d.to_owned(),
    }
}

/// The configuration directory of the browser.
pub fn get_config_dir(env: &PlatformEnv) -> (r: String)
    ensures
        r@ == config_dir_of(*env),
{
    match env.platform {
        Platform::Linux => match &env.xdg_config_home {
            Some(x) => join(x.clone(), "gitbrowser", '/'),
            None => join(join(value_or(&env.home, "/tmp"), ".config", '/'), "gitbrowser", '/'),
        },
        Platform::MacOs => join(join(join(value_or(&env.home, "/tmp"), "Library", '/'), "Application Support", '/'), "GitBrowser", '/'),
        Platform::Windows => join(value_or(&env.appdata, "C:\\Users\\Default\\AppData\\Roaming"), "GitBrowser", '\\'),
    }
}

/// The data directory of the browser.
pub fn get_data_dir(env: &PlatformEnv) -> (r: String)
    ensures
        r@ == data_dir_of(*env),
{
    match env.platform {
        Platform::Linux => match &env.xdg_data_home {
            Some(x) => join(x.clone(), "gitbrowser", '/'),
            None => join(join(join(value_or(&env.home, "/tmp"), ".local", '/'), "share", '/'), "gitbrowser", '/'),
        },
        _ => get_config_dir(env),
    }
}

/// The cache directory of the browser.
pub fn get_cache_dir(env: &PlatformEnv) -> (r: String)
    ensures
        r@ == cache_dir_of(*env),
{
    match env.platform {
        Platform::Linux => match &env.xdg_cache_home {
            Some(x) => join(x.clone(), "gitbrowser", '/'),
            None => join(join(value_or(&env.home, "/tmp"), ".cache", '/'), "gitbrowser", '/'),
        },
        Platform::MacOs => join(join(join(value_or(&env.home, "/tmp"), "Library", '/'), "Caches", '/'), "GitBrowser", '/'),
        Platform::Windows => join(
            join(value_or(&env.local_appdata, "C:\\Users\\Default\\AppData\\Local"), "GitBrowser", '\\'),
            "cache",
            '\\',
        ),
    }
}

} // verus!
