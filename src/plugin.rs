//! A plugin source: a remote git repository or a local directory, with the
//! name and links derived from it.
use vstd::prelude::*;

use crate::options::PluginOptions;
use crate::paths::{expand_tilde, expanded, final_component, path_final_component};
use crate::status::opt_view;
use crate::text::{
    ends_with_ignore_case, eq_ignore_case, has_char, has_infix, str_ends_with_ignore_case,
    str_eq_ignore_case, str_has_char, str_has_infix,
};

verus! {

#[verifier::external_type_specification]
#[verifier::external_body]
pub struct ExParseError(url::ParseError);

/// The serialization of `s` as an absolute URL, or `None` when `s` is not one.
pub uninterp spec fn url_serialization(s: Seq<char>) -> Option<Seq<char>>;

/// The host of the URL that `s` parses to, when it has one.
pub uninterp spec fn url_host(s: Seq<char>) -> Option<Seq<char>>;

/// The last path segment of the URL that `s` parses to, when its path has segments.
pub uninterp spec fn url_last_segment(s: Seq<char>) -> Option<Seq<char>>;

/// An absolute URL, held as the parts of it that the plugin logic reads.
#[derive(Debug, Clone, PartialEq, Eq)]
pub struct RemoteUrl {
    /// The serialized URL.
    pub text: String,
    /// Its host, when it has one.
    pub host: Option<String>,
    /// The last segment of its path, when the path has segments.
    pub last_segment: Option<String>,
}

impl RemoteUrl {
    pub open spec fn text_view(&self) -> Seq<char> {
        self.text@
    }

    pub open spec fn host_view(&self) -> Option<Seq<char>> {
        opt_view(self.host)
    }

    pub open spec fn segment_view(&self) -> Option<Seq<char>> {
        opt_view(self.last_segment)
    }

    /// This URL is what `s` parses to.
    pub open spec fn parsed_from(&self, s: Seq<char>) -> bool {
        &&& url_serialization(s) == Some(self.text_view())
        &&& self.host_view() == url_host(s)
        &&& self.segment_view() == url_last_segment(s)
    }

    /// The URL in its serialized form.
    pub fn as_str(&self) -> (r: &str)
        ensures
            r@ == self.text_view(),
    {
        self.text.as_str()
    }

    /// Parses an absolute URL.
    pub fn parse(s: &str) -> (r: Result<RemoteUrl, url::ParseError>)
        ensures
            r is Ok <==> url_serialization(s@) is Some,
            r matches Ok(u) ==> u.parsed_from(s@),
    {
        parse_url(s)
    }
}

/// Relies on `url::Url::parse` for the serialization, and on `Url::host_str` and
/// `Url::path_segments` of its result for the host and the last path segment.
#[verifier::external_body]
fn parse_url(s: &str) -> (r: Result<RemoteUrl, url::ParseError>)
    ensures
        r is Ok <==> url_serialization(s@) is Some,
        r matches Ok(u) ==> u.text@ == url_serialization(s@)->Some_0,
        r matches Ok(u) ==> opt_view(u.host) == url_host(s@),
        r matches Ok(u) ==> opt_view(u.last_segment) == url_last_segment(s@),
{
    match url::Url::parse(s) {
        Ok(u) => Ok(RemoteUrl {
            text: u.as_str().to_string(),
            host: u.host_str().map(str::to_string),
            last_segment: u.path_segments().and_then(Iterator::last).map(str::to_string),
        }),
        Err(e) => Err(e),
    }
}

/// `s` without one trailing `suffix`, compared exactly.
pub open spec fn drop_suffix(s: Seq<char>, suffix: Seq<char>) -> Seq<char> {
    if s.len() >= suffix.len() && s.subrange(s.len() - suffix.len(), s.len() as int) == suffix {
        s.subrange(0, s.len() - suffix.len())
    } else {
        s
    }
}

/// `s` without one trailing `suffix`, compared up to ASCII case.
pub open spec fn drop_suffix_ignore_case(s: Seq<char>, suffix: Seq<char>) -> Seq<char> {
    if ends_with_ignore_case(s, suffix) {
        s.subrange(0, s.len() - suffix.len())
    } else {
        s
    }
}

/// `s` with a `/` added unless it already ends with one.
pub open spec fn with_trailing_slash(s: Seq<char>) -> Seq<char> {
    if s.len() > 0 && s.last() == '/' {
        s
    } else {
        s + "/"@
    }
}

/// The name of a remote plugin: the last path segment of its URL (the whole
/// URL when the path has no segments), without a trailing `.git`.
pub open spec fn remote_name(text: Seq<char>, last_segment: Option<Seq<char>>) -> Seq<char> {
    match last_segment {
        Some(seg) => drop_suffix(seg, ".git"@),
        None => drop_suffix(text, ".git"@),
    }
}

/// The web page of a repository: its URL without `.git`, ending in `/`.
pub open spec fn repo_base(text: Seq<char>) -> Seq<char> {
    with_trailing_slash(drop_suffix_ignore_case(text, ".git"@))
}

/// The known code hosts, which have compare and commit pages.
#[derive(Debug, Clone, Copy, PartialEq, Eq)]
pub enum HostKind {
    GitHub,
    GitLab,
    Unknown,
}

pub open spec fn host_kind_of(host: Option<Seq<char>>) -> HostKind {
    match host {
        Some(h) => if eq_ignore_case(h, "github.com"@) || eq_ignore_case(h, "www.github.com"@) {
            HostKind::GitHub
        } else if eq_ignore_case(h, "gitlab.com"@) || eq_ignore_case(h, "www.gitlab.com"@) {
            HostKind::GitLab
        } else {
            HostKind::Unknown
        },
        None => HostKind::Unknown,
    }
}

/// The page that shows the commits between `from` and `to`.
pub open spec fn compare_url_of(url: Option<RemoteUrl>, from: Seq<char>, to: Seq<char>) -> Option<
    Seq<char>,
> {
    match url {
        Some(u) => match host_kind_of(u.host_view()) {
            HostKind::GitHub => Some(repo_base(u.text_view()) + "compare/"@ + from + "..."@ + to),
            HostKind::GitLab => Some(repo_base(u.text_view()) + "-/compare/"@ + from + "..."@ + to),
            HostKind::Unknown => None,
        },
        None => None,
    }
}

/// The page of the single commit `id`.
pub open spec fn commit_url_of(url: Option<RemoteUrl>, id: Seq<char>) -> Option<Seq<char>> {
    match url {
        Some(u) => match host_kind_of(u.host_view()) {
            HostKind::GitHub => Some(repo_base(u.text_view()) + "commit/"@ + id),
            HostKind::GitLab => Some(repo_base(u.text_view()) + "-/commit/"@ + id),
            HostKind::Unknown => None,
        },
        None => None,
    }
}

/// The shorthand prefix that turns `owner/repo` into a GitHub URL.
pub open spec fn github_shorthand(s: Seq<char>) -> Seq<char> {
    "https://github.com/"@ + s
}

/// `s` is an `owner/repo` shorthand rather than a URL.
pub open spec fn is_shorthand(s: Seq<char>) -> bool {
    url_serialization(s) is None && has_char(s, '/') && !has_infix(s, "://"@)
}

/// The URL text that a plugin source names: the source itself when it is an
/// absolute URL, else its GitHub form when it is an `owner/repo` shorthand
/// that makes a valid URL.
pub open spec fn parse_target(s: Seq<char>) -> Option<Seq<char>> {
    if url_serialization(s) is Some {
        Some(s)
    } else if is_shorthand(s) && url_serialization(github_shorthand(s)) is Some {
        Some(github_shorthand(s))
    } else {
        None
    }
}

/// Why a structured plugin descriptor was refused.
#[derive(Debug, PartialEq, Eq)]
pub enum DescriptorError {
    /// Neither `url` nor `path` was given.
    MissingSource,
    /// Both `url` and `path` were given.
    ConflictingSource,
    /// `url` is neither a URL nor an `owner/repo` shorthand.
    InvalidUrl(url::ParseError),
}

/// A configured plugin.
#[derive(Debug, Clone, PartialEq, Eq)]
pub struct Plugin {
    /// Where a remote plugin is cloned from; a local plugin may name one too.
    pub url: Option<RemoteUrl>,
    /// The directory of a local plugin, with `~` expanded.
    pub path: Option<String>,
    /// Derived once, at construction.
    pub name: String,
    pub options: PluginOptions,
}

pub fn drop_git_suffix(s: &str) -> (r: String)
    ensures
        r@ == drop_suffix(s@, ".git"@),
{
    let n = s.unicode_len();
    let m = ".git".unicode_len();
    if n >= m && crate::text::str_eq(s.substring_char(n - m, n), ".git") {
        String::from_str(s.substring_char(0, n - m))
    } else {
        String::from_str(s)
    }
}

fn repo_base_of(text: &str) -> (r: String)
    ensures
        r@ == repo_base(text@),
{
    let n = text.unicode_len();
    let m = ".git".unicode_len();
    let mut base = if str_ends_with_ignore_case(text, ".git") {
        String::from_str(text.substring_char(0, n - m))
    } else {
        String::from_str(text)
    };
    let len = base.as_str().unicode_len();
    if len > 0 && base.as_str().get_char(len - 1) == '/' {
        base
    } else {
        base.append("/");
        base
    }
}

/// The kind of a host name.
pub fn host_kind(host: &Option<String>) -> (r: HostKind)
    ensures
        r == host_kind_of(opt_view(*host)),
{
    match host {
        Some(h) => {
            if str_eq_ignore_case(h.as_str(), "github.com") || str_eq_ignore_case(
                h.as_str(),
                "www.github.com",
            ) {
                HostKind::GitHub
            } else if str_eq_ignore_case(h.as_str(), "gitlab.com") || str_eq_ignore_case(
                h.as_str(),
                "www.gitlab.com",
            ) {
                HostKind::GitLab
            } else {
                HostKind::Unknown
            }
        },
        None => HostKind::Unknown,
    }
}

impl Plugin {
    /// `self` is the remote plugin that the URL text `s` parses to.
    pub open spec fn remote_from(&self, s: Seq<char>) -> bool {
        &&& (self.url matches Some(u) && u.parsed_from(s))
        &&& self.path is None
        &&& self.name@ == remote_name(self.url->Some_0.text_view(), self.url->Some_0.segment_view())
    }

    /// `self` is the local plugin at the expanded path `p`, with no URL.
    pub open spec fn is_local_at(&self, p: Seq<char>) -> bool {
        &&& self.url is None
        &&& (self.path matches Some(x) && x@ == p)
        &&& self.name@ == final_component(p)
    }

    /// A remote plugin for `url`, named after its last path segment.
    pub fn new_remote(url: RemoteUrl) -> (r: Plugin)
        ensures
            r.url == Some(url),
            r.path is None,
            r.name@ == remote_name(url.text_view(), url.segment_view()),
            r.options@ == Map::<String, String>::empty(),
    {
        let name = match &url.last_segment {
            Some(seg) => drop_git_suffix(seg.as_str()),
            None => drop_git_suffix(url.text.as_str()),
        };
        Plugin { url: Some(url), path: None, name, options: PluginOptions::new() }
    }

    /// A local plugin at `path`, with a leading `~` standing for `home`, named
    /// after the final component of the expanded path.
    pub fn new_local(path: &str, home: &str, url: Option<RemoteUrl>) -> (r: Plugin)
        ensures
            r.url == url,
            r.path matches Some(p) && p@ == expanded(path@, home@),
            r.name@ == final_component(expanded(path@, home@)),
            r.options@ == Map::<String, String>::empty(),
    {
        let expanded_path = expand_tilde(path, home);
        let name = path_final_component(expanded_path.as_str());
        Plugin { url, path: Some(expanded_path), name, options: PluginOptions::new() }
    }

    /// The same plugin with `options` in place of its own.
    pub fn with_options(self, options: PluginOptions) -> (r: Plugin)
        ensures
            r.url == self.url,
            r.path == self.path,
            r.name == self.name,
            r.options == options,
    {
        Plugin { options, ..self }
    }

    /// Parses a plugin source: an absolute URL is taken as it is, and an
    /// `owner/repo` shorthand becomes a GitHub URL.
    pub fn parse(s: &str) -> (r: Result<Plugin, url::ParseError>)
        ensures
            r is Ok <==> parse_target(s@) is Some,
            r matches Ok(p) ==> p.remote_from(parse_target(s@)->Some_0),
            r matches Ok(p) ==> p.options@ == Map::<String, String>::empty(),
    {
        match RemoteUrl::parse(s) {
            Ok(url) => Ok(Plugin::new_remote(url)),
            Err(e) => {
                if str_has_char(s, '/') && !str_has_infix(s, "://") {
                    let mut full = String::from_str("https://github.com/");
                    full.append(s);
                    match RemoteUrl::parse(full.as_str()) {
                        Ok(url) => Ok(Plugin::new_remote(url)),
                        Err(e) => Err(e),
                    }
                } else {
                    Err(e)
                }
            },
        }
    }

    /// How the plugin is shown: its path when local, else its URL.
    pub fn display(&self) -> (r: String)
        ensures
            self.path matches Some(p) ==> r@ == p@,
            (self.path is None && self.url is Some) ==> r@ == self.url->Some_0.text_view(),
            (self.path is None && self.url is None) ==> r@ == "unknown"@,
    {
        match &self.path {
            Some(p) => p.clone(),
            None => match &self.url {
                Some(u) => u.text.clone(),
                None => String::from_str("unknown"),
            },
        }
    }

    /// The plugin's name, which is also the directory of a remote plugin.
    pub fn repo_name(&self) -> (r: &str)
        ensures
            r@ == self.name@,
    {
        self.name.as_str()
    }

    /// A plugin from a structured descriptor: exactly one of `url` (a URL or an
    /// `owner/repo` shorthand) and `path` (a local directory), with its options.
    pub fn from_descriptor(
        url: Option<&str>,
        path: Option<&str>,
        options: PluginOptions,
        home: &str,
    ) -> (r: Result<Plugin, DescriptorError>)
        ensures
            (url is None && path is None) ==> (r matches Err(DescriptorError::MissingSource)),
            (url is Some && path is Some) ==> (r matches Err(DescriptorError::ConflictingSource)),
            (url is None && path is Some) ==> (r matches Ok(pl) && pl.is_local_at(expanded(path->Some_0@, home@))
                && pl.options == options),
            (url is Some && path is None) ==> (r is Ok <==> parse_target(url->Some_0@) is Some),
            (url is Some && path is None) ==> (r matches Ok(pl) ==> pl.remote_from(parse_target(url->Some_0@)->Some_0)
                && pl.options == options),
            (url is Some && path is None) ==> (r matches Err(e) ==> e is InvalidUrl),
    {
        match (url, path) {
            (None, None) => Err(DescriptorError::MissingSource),
            (Some(_), Some(_)) => Err(DescriptorError::ConflictingSource),
            (None, Some(p)) => Ok(Plugin::new_local(p, home, None).with_options(options)),
            (Some(u), None) => match Plugin::parse(u) {
                Ok(plugin) => Ok(plugin.with_options(options)),
                Err(e) => Err(DescriptorError::InvalidUrl(e)),
            },
        }
    }

    /// Where the plugin lives on disk: its own path when local, else
    /// `<plugins_root>/<name>`.
    pub fn install_path(&self, plugins_root: &str) -> (r: String)
        ensures
            self.path matches Some(p) ==> r@ == p@,
            self.path is None ==> r@ == with_trailing_slash(plugins_root@) + self.name@,
    {
        match &self.path {
            Some(p) => p.clone(),
            None => {
                let len = plugins_root.unicode_len();
                let mut r = String::from_str(plugins_root);
                if !(len > 0 && plugins_root.get_char(len - 1) == '/') {
                    r.append("/");
                }
                r.append(self.name.as_str());
                r
            },
        }
    }

    /// The page that compares two commits, for a known host.
    pub fn compare_url(&self, from: &str, to: &str) -> (r: Option<String>)
        ensures
            opt_view(r) == compare_url_of(self.url, from@, to@),
    {
        match &self.url {
            Some(u) => {
                let kind = host_kind(&u.host);
                let mut base = repo_base_of(u.text.as_str());
                match kind {
                    HostKind::GitHub => base.append("compare/"),
                    HostKind::GitLab => base.append("-/compare/"),
                    HostKind::Unknown => {
                        return None;
                    },
                }
                base.append(from);
                base.append("...");
                base.append(to);
                Some(base)
            },
            None => None,
        }
    }

    /// The page of one commit, for a known host.
    pub fn commit_url(&self, id: &str) -> (r: Option<String>)
        ensures
            opt_view(r) == commit_url_of(self.url, id@),
    {
        match &self.url {
            Some(u) => {
                let kind = host_kind(&u.host);
                let mut base = repo_base_of(u.text.as_str());
                match kind {
                    HostKind::GitHub => base.append("commit/"),
                    HostKind::GitLab => base.append("-/commit/"),
                    HostKind::Unknown => {
                        return None;
                    },
                }
                base.append(id);
                Some(base)
            },
            None => None,
        }
    }
}

} // verus!
