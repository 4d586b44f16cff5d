//! Download URLs rendered from the template that a package declares.

use crate::percent::has_byte;
use crate::text::{contains_bytes, occurs_in, option_text};
use crate::url_parts::{url_record, InvalidUrl, ParsedUrl, UrlRecord};
use vstd::prelude::*;
use vstd::string::*;
use vstd::utf8::*;

verus! {

/// The format in which a package is published.
#[derive(Clone, Copy, Debug, PartialEq, Eq, Structural)]
pub enum PkgFmt {
    /// An archive of tar, not compressed.
    Tar,
    /// An archive of tar, compressed with bzip2.
    Tbz2,
    /// An archive of tar, compressed with gzip.
    Tgz,
    /// An archive of tar, compressed with xz.
    Txz,
    /// A zip archive.
    Zip,
    /// The bare binary.
    Bin,
}

/// The name of a package format, as templates write it.
pub open spec fn pkg_fmt_text(fmt: PkgFmt) -> Seq<char> {
    match fmt {
        PkgFmt::Tar => "tar"@,
        PkgFmt::Tbz2 => "tbz2"@,
        PkgFmt::Tgz => "tgz"@,
        PkgFmt::Txz => "txz"@,
        PkgFmt::Zip => "zip"@,
        PkgFmt::Bin => "bin"@,
    }
}

impl PkgFmt {
    /// The name of the format.
    pub fn to_string(&self) -> (name: String)
        ensures
            name@ == pkg_fmt_text(*self),
    {
        match self {
            PkgFmt::Tar => String::from_str("tar"),
            PkgFmt::Tbz2 => String::from_str("tbz2"),
            PkgFmt::Tgz => String::from_str("tgz"),
            PkgFmt::Txz => String::from_str("txz"),
            PkgFmt::Zip => String::from_str("zip"),
            PkgFmt::Bin => String::from_str("bin"),
        }
    }
}

impl Default for PkgFmt {
    fn default() -> (fmt: Self)
        ensures
            fmt == PkgFmt::Tgz,
    {
        PkgFmt::Tgz
    }
}

/// The template of a download URL where a package declares none.
pub open spec fn default_pkg_url() -> Seq<char> {
    "{ repo }/releases/download/v{ version }/{ name }-{ target }-v{ version }.{ archive-format }"@
}

/// What a package says of its published binaries.
#[derive(Debug)]
pub struct PkgMeta {
    /// The template of the download URL.
    pub pkg_url: String,
    /// The format of what is downloaded.
    pub pkg_fmt: PkgFmt,
}

impl Default for PkgMeta {
    fn default() -> (meta: Self)
        ensures
            meta.pkg_url@ == default_pkg_url(),
            meta.pkg_fmt == PkgFmt::Tgz,
    {
        PkgMeta {
            pkg_url: String::from_str(
                "{ repo }/releases/download/v{ version }/{ name }-{ target }-v{ version }.{ archive-format }",
            ),
            pkg_fmt: PkgFmt::Tgz,
        }
    }
}

impl Clone for PkgMeta {
    fn clone(&self) -> (copy: Self)
        ensures
            copy == *self,
    {
        PkgMeta { pkg_url: self.pkg_url.clone(), pkg_fmt: self.pkg_fmt }
    }
}

/// The package that is looked for, and the target it is wanted for.
#[derive(Debug)]
pub struct Data {
    pub name: String,
    pub target: String,
    pub version: String,
    pub repo: Option<String>,
    pub meta: PkgMeta,
}

impl Clone for Data {
    fn clone(&self) -> (copy: Self)
        ensures
            copy == *self,
    {
        Data {
            name: self.name.clone(),
            target: self.target.clone(),
            version: self.version.clone(),
            repo: match &self.repo {
                Some(repo) => Some(repo.clone()),
                None => None,
            },
            meta: self.meta.clone(),
        }
    }
}

/// Why a download URL could not be had from a template.
#[derive(Debug)]
pub enum BinstallError {
    /// The template holds a backslash, a comment or a block: it is made of
    /// more than text and value tags, and is not rendered.
    UnsupportedTemplate,
    /// The template could not be compiled or rendered.
    Template(tinytemplate::error::Error),
    /// What the template rendered is no absolute URL.
    UrlParse(InvalidUrl),
}

/// `tinytemplate::error::Error`, carried as it comes: nothing is known of
/// what it holds.
#[verifier::external_type_specification]
#[verifier::external_body]
pub struct ExTemplateError(tinytemplate::error::Error);

/// The values that a template of a download URL can name.
#[derive(Debug)]
pub struct Context<'c> {
    pub name: &'c str,
    pub repo: Option<&'c str>,
    pub target: &'c str,
    pub version: &'c str,
    /// Soft-deprecated alias for archive-format
    pub format: String,
    /// Archive format e.g. tar.gz, zip
    pub archive_format: String,
    /// Filename extension on the binary, i.e. .exe on Windows, nothing otherwise
    pub binary_ext: &'c str,
}

/// The values of a context as mathematical values.
pub ghost struct ContextValues {
    pub name: Seq<char>,
    pub repo: Option<Seq<char>>,
    pub target: Seq<char>,
    pub version: Seq<char>,
    pub format: Seq<char>,
    pub archive_format: Seq<char>,
    pub binary_ext: Seq<char>,
}

impl<'c> View for Context<'c> {
    type V = ContextValues;

    open spec fn view(&self) -> ContextValues {
        ContextValues {
            name: self.name@,
            repo: match self.repo {
                Some(repo) => Some(repo@),
                None => None,
            },
            target: self.target@,
            version: self.version@,
            format: self.format@,
            archive_format: self.archive_format@,
            binary_ext: self.binary_ext@,
        }
    }
}

/// Whether a target triple names Windows: whether `windows` occurs in it.
pub open spec fn targets_windows(target: Seq<char>) -> bool {
    occurs_in(encode_utf8("windows"@), encode_utf8(target))
}

/// The context that `data` gives to the template of its download URL.
pub open spec fn context_of(data: Data) -> ContextValues {
    ContextValues {
        name: data.name@,
        repo: option_text(data.repo),
        target: data.target@,
        version: data.version@,
        format: pkg_fmt_text(data.meta.pkg_fmt),
        archive_format: pkg_fmt_text(data.meta.pkg_fmt),
        binary_ext: if targets_windows(data.target@) {
            ".exe"@
        } else {
            ""@
        },
    }
}

/// The names under which a template reaches the values of a context, each
/// with its value. A repository that is not known has no value.
pub open spec fn template_fields(values: ContextValues) -> Seq<(Seq<char>, Option<Seq<char>>)> {
    seq![
        ("name"@, Some(values.name)),
        ("repo"@, values.repo),
        ("target"@, Some(values.target)),
        ("version"@, Some(values.version)),
        ("format"@, Some(values.format)),
        ("archive-format"@, Some(values.archive_format)),
        ("binary-ext"@, Some(values.binary_ext)),
    ]
}

/// The names and values of a list of template fields.
pub open spec fn field_views(fields: Seq<(String, Option<String>)>) -> Seq<
    (Seq<char>, Option<Seq<char>>),
> {
    fields.map_values(|field: (String, Option<String>)| (field.0@, option_text(field.1)))
}

/// Whether a template is made of text and value tags alone: whether it
/// holds no backslash, which would escape a brace, no `{#`, which would open
/// a comment, and no `{{`, which would open a block.
pub open spec fn is_plain_template(template: Seq<char>) -> bool {
    let bytes = encode_utf8(template);
    &&& !bytes.contains(0x5cu8)
    &&& !occurs_in(seq![0x7bu8, 0x23u8], bytes)
    &&& !occurs_in(seq![0x7bu8, 0x7bu8], bytes)
}

/// Whether `template` is made of text and value tags alone.
pub fn is_plain(template: &str) -> (plain: bool)
    ensures
        plain == is_plain_template(template@),
{
    let bytes = template.as_bytes();
    let comment: [u8; 2] = [0x7b, 0x23];
    let block: [u8; 2] = [0x7b, 0x7b];
    proof {
        assert(comment@ =~= seq![0x7bu8, 0x23u8]);
        assert(block@ =~= seq![0x7bu8, 0x7bu8]);
    }
    !has_byte(bytes, 0x5c) && !contains_bytes(bytes, comment.as_slice()) && !contains_bytes(
        bytes,
        block.as_slice(),
    )
}

/// What `tinytemplate` renders of `template` where each name of `fields`
/// stands for its value: the text, or nothing where the template does not
/// compile or cannot be rendered.
pub uninterp spec fn template_rendering(
    template: Seq<char>,
    fields: Seq<(Seq<char>, Option<Seq<char>>)>,
) -> Option<Seq<char>>;

/// `tinytemplate::TinyTemplate`: `new`, `add_template` with the template's
/// text, and `render` of that template with a context that maps each name of
/// `fields` to its value, a missing value being null.
///
/// The compiler of `tinytemplate` slices out of range on some templates that
/// end in a backslash or hold a comment or a block. The contract is for
/// templates that hold none of the three, which it compiles and renders
/// without a panic.
#[verifier::external_body]
fn render_template(template: &str, fields: &Vec<(String, Option<String>)>) -> (rendered: Result<
    String,
    tinytemplate::error::Error,
>)
    requires
        is_plain_template(template@),
    ensures
        rendered matches Ok(text) ==> template_rendering(template@, field_views(fields@)) == Some(
            text@,
        ),
        rendered is Err ==> template_rendering(template@, field_views(fields@)) is None,
{
    let mut engine = tinytemplate::TinyTemplate::new();
    engine.add_template("path", template)?;
    let context: std::collections::BTreeMap<&str, Option<&str>> = fields.iter().map(
        |field| (field.0.as_str(), field.1.as_deref()),
    ).collect();
    engine.render("path", &context)
}

/// The text that `template` renders to in the context `values`, where it is
/// made of text and value tags alone and can be rendered.
pub open spec fn rendered_url_text(template: Seq<char>, values: ContextValues) -> Option<
    Seq<char>,
> {
    if is_plain_template(template) {
        template_rendering(template, template_fields(values))
    } else {
        None
    }
}

impl<'c> Context<'c> {
    /// The context of the package `data`.
    ///
    /// Both names of the archive format carry the name of the package's
    /// format, and the extension of the binary is `.exe` exactly where the
    /// target names Windows.
    pub fn from_data(data: &'c Data) -> (context: Self)
        ensures
            context@ == context_of(*data),
    {
        let pkg_fmt = data.meta.pkg_fmt.to_string();
        let windows = contains_bytes(data.target.as_str().as_bytes(), "windows".as_bytes());
        Context {
            name: data.name.as_str(),
            repo: match &data.repo {
                Some(repo) => Some(repo.as_str()),
                None => None,
            },
            target: data.target.as_str(),
            version: data.version.as_str(),
            format: pkg_fmt.clone(),
            archive_format: pkg_fmt,
            binary_ext: if windows {
                ".exe"
            } else {
                ""
            },
        }
    }

    /// Renders `template` in this context.
    ///
    /// Fails with `UnsupportedTemplate` exactly where the template is made
    /// of more than text and value tags, and with `Template` exactly where
    /// it is not and cannot be rendered.
    pub fn render(&self, template: &str) -> (rendered: Result<String, BinstallError>)
        ensures
            rendered matches Err(BinstallError::UnsupportedTemplate) <==> !is_plain_template(
                template@,
            ),
            rendered matches Ok(text) ==> rendered_url_text(template@, self@) == Some(text@),
            rendered matches Err(BinstallError::Template(_)) ==> is_plain_template(template@)
                && rendered_url_text(template@, self@) is None,
            !(rendered matches Err(BinstallError::UrlParse(_))),
    {
        if !is_plain(template) {
            return Err(BinstallError::UnsupportedTemplate);
        }
        let mut fields: Vec<(String, Option<String>)> = Vec::new();
        fields.push((String::from_str("name"), Some(String::from_str(self.name))));
        fields.push(
            (
                String::from_str("repo"),
                match self.repo {
                    Some(repo) => Some(String::from_str(repo)),
                    None => None,
                },
            ),
        );
        fields.push((String::from_str("target"), Some(String::from_str(self.target))));
        fields.push((String::from_str("version"), Some(String::from_str(self.version))));
        fields.push((String::from_str("format"), Some(self.format.clone())));
        fields.push((String::from_str("archive-format"), Some(self.archive_format.clone())));
        fields.push((String::from_str("binary-ext"), Some(String::from_str(self.binary_ext))));
        proof {
            assert(field_views(fields@) =~= template_fields(self@));
        }
        match render_template(template, &fields) {
            Ok(text) => Ok(text),
            Err(error) => Err(BinstallError::Template(error)),
        }
    }

    /// Renders `template` in this context and parses the result as a URL.
    ///
    /// Fails with `UnsupportedTemplate` exactly where the template is made
    /// of more than text and value tags, with `Template` exactly where it is
    /// not and cannot be rendered, and with `UrlParse` exactly where it is
    /// rendered and the text is no absolute URL.
    pub fn render_url(&self, template: &str) -> (url: Result<ParsedUrl, BinstallError>)
        ensures
            url matches Err(BinstallError::UnsupportedTemplate) <==> !is_plain_template(template@),
            url matches Ok(parsed) ==> rendered_url_text(template@, self@) is Some && url_record(
                rendered_url_text(template@, self@)->0,
            ) == Some(parsed@),
            url matches Err(BinstallError::Template(_)) ==> is_plain_template(template@)
                && rendered_url_text(template@, self@) is None,
            url matches Err(BinstallError::UrlParse(_)) ==> rendered_url_text(template@, self@)
                is Some && url_record(rendered_url_text(template@, self@)->0) is None,
    {
        match self.render(template) {
            Ok(text) => match ParsedUrl::parse(text.as_str()) {
                Ok(parsed) => Ok(parsed),
                Err(invalid) => Err(BinstallError::UrlParse(invalid)),
            },
            Err(error) => Err(error),
        }
    }
}


impl<'c> Clone for Context<'c> {
    fn clone(&self) -> (copy: Self)
        ensures
            copy == *self,
    {
        Context {
            name: self.name,
            repo: self.repo,
            target: self.target,
            version: self.version,
            format: self.format.clone(),
            archive_format: self.archive_format.clone(),
            binary_ext: self.binary_ext,
        }
    }
}

/// The download URL of the package `data`: what its template renders in its
/// context, parsed as an absolute URL, where the template is made of text and
/// value tags alone and both can be done.
pub open spec fn download_url(data: Data) -> Option<UrlRecord> {
    match rendered_url_text(data.meta.pkg_url@, context_of(data)) {
        Some(text) => url_record(text),
        None => None,
    }
}

/// The name under which the source of a download is shown: the domain of the
/// URL, or else its host, or else the whole URL; and a fixed text where there
/// is no URL.
pub open spec fn source_name_of(url: Option<UrlRecord>) -> Seq<char> {
    match url {
        Some(record) => match record.domain {
            Some(domain) => domain,
            None => match record.host {
                Some(host) => host,
                None => record.text,
            },
        },
        None => "invalid url template"@,
    }
}

/// The name under which the source of a download from `url` is shown.
pub fn source_name_of_url(url: &Result<ParsedUrl, BinstallError>) -> (name: String)
    ensures
        name@ == source_name_of(
            match *url {
                Ok(parsed) => Some(parsed@),
                Err(_) => None,
            },
        ),
{
    match url {
        Ok(parsed) => match &parsed.domain {
            Some(domain) => domain.clone(),
            None => match &parsed.host {
                Some(host) => host.clone(),
                None => parsed.text.clone(),
            },
        },
        Err(_) => String::from_str("invalid url template"),
    }
}

/// The fetcher that downloads a package from the URL that the package's own
/// template gives.
#[derive(Debug)]
pub struct GhCrateMeta {
    data: Data,
}

impl GhCrateMeta {
    /// The package that is fetched.
    pub closed spec fn data(&self) -> Data {
        self.data
    }

    /// The fetcher for the package `data`.
    pub fn new(data: &Data) -> (fetcher: Self)
        ensures
            fetcher.data() == *data,
    {
        GhCrateMeta { data: data.clone() }
    }

    /// The download URL of the package.
    ///
    /// Fails with `UnsupportedTemplate` exactly where the package's template
    /// is made of more than text and value tags, with `Template` exactly
    /// where it is not and cannot be rendered, and with `UrlParse` exactly
    /// where it is rendered and the text is no absolute URL.
    pub fn url(&self) -> (url: Result<ParsedUrl, BinstallError>)
        ensures
            url matches Ok(parsed) ==> download_url(self.data()) == Some(parsed@),
            url is Err ==> download_url(self.data()) is None,
            url matches Err(BinstallError::UnsupportedTemplate) <==> !is_plain_template(
                self.data().meta.pkg_url@,
            ),
            url matches Err(BinstallError::Template(_)) ==> is_plain_template(
                self.data().meta.pkg_url@,
            ) && rendered_url_text(self.data().meta.pkg_url@, context_of(self.data())) is None,
            url matches Err(BinstallError::UrlParse(_)) ==> rendered_url_text(
                self.data().meta.pkg_url@,
                context_of(self.data()),
            ) is Some,
    {
        let context = Context::from_data(&self.data);
        context.render_url(self.data.meta.pkg_url.as_str())
    }

    /// The format in which the package is published.
    pub fn pkg_fmt(&self) -> (fmt: PkgFmt)
        ensures
            fmt == self.data().meta.pkg_fmt,
    {
        self.data.meta.pkg_fmt
    }

    /// The name under which the source of the download is shown.
    pub fn source_name(&self) -> (name: String)
        ensures
            name@ == source_name_of(download_url(self.data())),
    {
        let url = self.url();
        source_name_of_url(&url)
    }

    /// Whether the download comes from a third party: never, the URL is the
    /// package's own.
    pub fn is_third_party(&self) -> (third_party: bool)
        ensures
            !third_party,
    {
        false
    }

    /// The target that the package is fetched for.
    pub fn target(&self) -> (target: &str)
        ensures
            target@ == self.data().target@,
    {
        self.data.target.as_str()
    }
}

} // verus!
