//! The record of an installed bundle, and how a bundle is shown to the desktop.
use crate::args::{InstallArgs, InstallArgsView};
use crate::paths::{join, join_path};
use crate::text::{
    chars_of, contains_chars, contains_text, cut, find_char, find_from, first_index, join2, join3,
    join_lines, lemma_first_at_unique, lemma_first_index, line_ranges, lines, occurs_at,
    ranges_within, split_once,
};
use vstd::prelude::*;

verus! {

/// Where a bundle comes from.
#[derive(Debug, Clone, PartialEq, Eq)]
pub enum Source {
    /// A link to the bundle itself.
    RawUrl { url: String },
    /// A repository on GitHub, as `owner/repo`, whose releases offer the bundle.
    GitHub { slug: String },
}

/// What a stored record holds of its source beside the kind: the URL, or the
/// repository's `owner/repo`.
#[derive(Debug, Clone, PartialEq, Eq)]
pub struct SourceMetadata {
    pub url: String,
}

/// The record of one installed bundle.
#[derive(Debug, Clone, PartialEq, Eq)]
pub struct AppImage {
    /// Where the bundle lies; empty until it was fetched.
    pub file_path: String,
    /// The name of the executable in the user's PATH.
    pub executable: String,
    pub source: Source,
}

pub enum SourceView {
    RawUrl { url: Seq<char> },
    GitHub { slug: Seq<char> },
}

pub struct AppImageView {
    pub file_path: Seq<char>,
    pub executable: Seq<char>,
    pub source: SourceView,
}

impl DeepView for Source {
    type V = SourceView;

    open spec fn deep_view(&self) -> SourceView {
        match self {
            Source::RawUrl { url } => SourceView::RawUrl { url: url@ },
            Source::GitHub { slug } => SourceView::GitHub { slug: slug@ },
        }
    }
}

impl DeepView for AppImage {
    type V = AppImageView;

    open spec fn deep_view(&self) -> AppImageView {
        AppImageView {
            file_path: self.file_path@,
            executable: self.executable@,
            source: self.source.deep_view(),
        }
    }
}

/// The word that a stored record names the kind of its source by.
pub open spec fn identifier_of(source: SourceView) -> Seq<char> {
    match source {
        SourceView::RawUrl { .. } => "raw_url"@,
        SourceView::GitHub { .. } => "git.github"@,
    }
}

/// The URL or `owner/repo` of a source.
pub open spec fn locator_of(source: SourceView) -> Seq<char> {
    match source {
        SourceView::RawUrl { url } => url,
        SourceView::GitHub { slug } => slug,
    }
}

/// The source that a stored record describes by `identifier` and `locator`:
/// a repository where the word is `git.github`, a link in every other case.
pub open spec fn stored_source(identifier: Seq<char>, locator: Seq<char>) -> SourceView {
    if identifier == "git.github"@ {
        SourceView::GitHub { slug: locator }
    } else {
        SourceView::RawUrl { url: locator }
    }
}

/// The record that `install` starts from.
pub open spec fn new_record(options: InstallArgsView) -> AppImageView {
    AppImageView {
        file_path: Seq::empty(),
        executable: match options.executable {
            Some(name) => name,
            None => options.appname,
        },
        source: if options.github {
            SourceView::GitHub { slug: options.from }
        } else {
            SourceView::RawUrl { url: options.from }
        },
    }
}

/// A source is read back from its stored form as it was written.
pub proof fn lemma_source_round_trip(source: SourceView)
    ensures
        stored_source(identifier_of(source), locator_of(source)) == source,
{
    reveal_strlit("raw_url");
    reveal_strlit("git.github");
    assert("raw_url"@.len() != "git.github"@.len());
}

impl Source {
    /// The word that a stored record names the kind of this source by.
    pub fn identifier(&self) -> (r: String)
        ensures
            r@ == identifier_of(self.deep_view()),
    {
        match self {
            Source::RawUrl { .. } => String::from_str("raw_url"),
            Source::GitHub { .. } => String::from_str("git.github"),
        }
    }

    /// What a stored record holds of this source beside the kind.
    pub fn meta(&self) -> (r: SourceMetadata)
        ensures
            r.url@ == locator_of(self.deep_view()),
    {
        match self {
            Source::RawUrl { url } => SourceMetadata { url: url.clone() },
            Source::GitHub { slug } => SourceMetadata { url: slug.clone() },
        }
    }

    /// The source that a stored record describes.
    pub fn from_stored(identifier: &str, meta: SourceMetadata) -> (r: Source)
        ensures
            r.deep_view() == stored_source(identifier@, meta.url@),
    {
        if crate::text::same_text(identifier, "git.github") {
            Source::GitHub { slug: meta.url }
        } else {
            Source::RawUrl { url: meta.url }
        }
    }

    /// Whether the source is a repository on GitHub.
    pub fn is_github(&self) -> (r: bool)
        ensures
            r == (self.deep_view() is GitHub),
    {
        match self {
            Source::RawUrl { .. } => false,
            Source::GitHub { .. } => true,
        }
    }

    /// A copy of the source.
    pub fn duplicate(&self) -> (r: Source)
        ensures
            r.deep_view() == self.deep_view(),
    {
        match self {
            Source::RawUrl { url } => Source::RawUrl { url: url.clone() },
            Source::GitHub { slug } => Source::GitHub { slug: slug.clone() },
        }
    }
}

impl AppImage {
    /// The record that `install` starts from: named by `executable` where one
    /// is given and by `appname` else, with no bundle fetched yet.
    pub fn new(options: &InstallArgs) -> (r: AppImage)
        ensures
            r.deep_view() == new_record(options.deep_view()),
    {
        let executable = match &options.executable {
            Some(name) => name.clone(),
            None => options.appname.clone(),
        };
        let source = if options.github {
            Source::GitHub { slug: options.from.clone() }
        } else {
            Source::RawUrl { url: options.from.clone() }
        };
        AppImage { file_path: String::new(), executable, source }
    }

    /// The text of a desktop entry as it is installed for this bundle. Its
    /// icon is named only where one was found: `{executable}.png` in `icons_dir`.
    pub fn fix_desktop(&self, content: &str, icons_dir: &str, icon_found: bool) -> (r: String)
        ensures
            r@ == rewritten(
                content@,
                self.file_path@,
                if icon_found {
                    Some(named_in(icons_dir@, self.executable@, ".png"@))
                } else {
                    None
                },
            ),
    {
        if icon_found {
            let name = join2(self.executable.as_str(), ".png");
            let icon = join_path(icons_dir, name.as_str());
            rewrite_desktop(content, self.file_path.as_str(), Some(icon.as_str()))
        } else {
            rewrite_desktop(content, self.file_path.as_str(), None)
        }
    }

    /// A copy of the record.
    pub fn duplicate(&self) -> (r: AppImage)
        ensures
            r.deep_view() == self.deep_view(),
    {
        AppImage {
            file_path: self.file_path.clone(),
            executable: self.executable.clone(),
            source: self.source.duplicate(),
        }
    }
}

/// A line of a desktop entry as it is installed.
///
/// A line that holds `Exec=` gets the bundle's path for its value. The key,
/// which is what stands before the line's first `=`, is kept, and so are the
/// arguments, which are what follows the first space of the value. A line
/// that holds `Icon=` gets the icon's path for its value where an icon was
/// found. Every other line stays as it is.
pub open spec fn rewritten_line(line: Seq<char>, bundle: Seq<char>, icon: Option<Seq<char>>) -> Seq<
    char,
> {
    if contains_text(line, "Exec="@) {
        match split_once(line, '=') {
            Some((key, value)) => match split_once(value, ' ') {
                Some((_, arguments)) => key + seq!['='] + bundle + seq![' '] + arguments,
                None => key + seq!['='] + bundle,
            },
            None => line,
        }
    } else if contains_text(line, "Icon="@) && icon is Some {
        match split_once(line, '=') {
            Some((key, _)) => key + seq!['='] + icon->0,
            None => line,
        }
    } else {
        line
    }
}

/// Every line that holds `Exec=` gets the bundle's path: the line as it is
/// installed begins with the key, the `=` and the path of the bundle, whatever
/// stands before the key or in the value.
pub proof fn lemma_exec_line_names_the_bundle(
    line: Seq<char>,
    bundle: Seq<char>,
    icon: Option<Seq<char>>,
)
    requires
        contains_text(line, "Exec="@),
    ensures
        line.contains('='),
        (line.take(first_index(line, '=')) + seq!['='] + bundle).is_prefix_of(
            rewritten_line(line, bundle, icon),
        ),
{
    reveal_strlit("Exec=");
    let at = choose|at: int| occurs_at(line, "Exec="@, at);
    assert(line.subrange(at, at + 5)[4] == '=');
    assert(line[at + 4] == '=');
    let head = line.take(first_index(line, '=')) + seq!['='] + bundle;
    let whole = rewritten_line(line, bundle, icon);
    assert(whole.subrange(0, head.len() as int) =~= head);
}

/// Each line as it is installed.
pub open spec fn rewritten_lines(
    ls: Seq<Seq<char>>,
    bundle: Seq<char>,
    icon: Option<Seq<char>>,
) -> Seq<Seq<char>> {
    Seq::new(ls.len(), |k: int| rewritten_line(ls[k], bundle, icon))
}

/// A desktop entry as it is installed: its lines rewritten one by one and set
/// together again with one line feed between each two.
pub open spec fn rewritten(content: Seq<char>, bundle: Seq<char>, icon: Option<Seq<char>>) -> Seq<
    char,
> {
    join_lines(rewritten_lines(lines(content), bundle, icon))
}

/// The text of an optional string.
pub open spec fn text_of(s: Option<&str>) -> Option<Seq<char>> {
    match s {
        Some(text) => Some(text@),
        None => None,
    }
}

/// The path of an icon or desktop entry: the executable's name with the
/// file's ending, inside the directory.
pub open spec fn named_in(dir: Seq<char>, executable: Seq<char>, ending: Seq<char>) -> Seq<char> {
    join(dir, executable + ending)
}

/// A line of a desktop entry as it is installed.
pub fn rewrite_line(line: &str, bundle: &str, icon: Option<&str>) -> (r: String)
    ensures
        r@ == rewritten_line(line@, bundle@, text_of(icon)),
{
    let chars = chars_of(line);
    let n: usize = chars.len();
    let exec_key = chars_of("Exec=");
    let icon_key = chars_of("Icon=");
    proof {
        reveal_strlit("=");
        reveal_strlit(" ");
        assert("="@ =~= seq!['=']);
        assert(" "@ =~= seq![' ']);
    }
    if contains_chars(&chars, &exec_key) {
        match find_char(&chars, '=') {
            Some(at) => {
                let ghost value = line@.skip(at + 1);
                proof {
                    assert(line@.subrange(0, at as int) =~= line@.take(at as int));
                    lemma_first_index(value, ' ');
                }
                match find_from(&chars, ' ', at + 1) {
                    Some(space) => {
                        proof {
                            assert(value.contains(' '));
                            lemma_first_at_unique(
                                value,
                                ' ',
                                space - (at + 1),
                                first_index(value, ' '),
                            );
                            assert(line@.subrange(space + 1, n as int) =~= value.skip(
                                space - (at + 1) + 1,
                            ));
                        }
                        let mut r = join3(line.substring_char(0, at), "=", bundle);
                        r.append(" ");
                        r.append(line.substring_char(space + 1, n));
                        r
                    },
                    None => join3(line.substring_char(0, at), "=", bundle),
                }
            },
            None => String::from_str(line),
        }
    } else if contains_chars(&chars, &icon_key) && icon.is_some() {
        match find_char(&chars, '=') {
            Some(at) => {
                proof {
                    assert(line@.subrange(0, at as int) =~= line@.take(at as int));
                }
                join3(line.substring_char(0, at), "=", icon.unwrap())
            },
            None => String::from_str(line),
        }
    } else {
        String::from_str(line)
    }
}

/// A desktop entry as it is installed.
pub fn rewrite_desktop(content: &str, bundle: &str, icon: Option<&str>) -> (r: String)
    ensures
        r@ == rewritten(content@, bundle@, text_of(icon)),
{
    let chars = chars_of(content);
    let ranges = line_ranges(&chars);
    let ghost target = rewritten_lines(lines(content@), bundle@, text_of(icon));
    let mut r = String::new();
    let mut k: usize = 0;
    proof {
        reveal_strlit("\n");
        assert("\n"@ =~= seq!['\n']);
        assert(target.take(0) =~= Seq::<Seq<char>>::empty());
    }
    while k < ranges.len()
        invariant
            k <= ranges.len(),
            chars@ == content@,
            ranges_within(ranges@, chars@.len()),
            cut(chars@, ranges@) == lines(content@),
            target == rewritten_lines(lines(content@), bundle@, text_of(icon)),
            "\n"@ == seq!['\n'],
            r@ == join_lines(target.take(k as int)),
        decreases ranges.len() - k,
    {
        let range = ranges[k];
        let line = content.substring_char(range.0, range.1);
        let fixed = rewrite_line(line, bundle, icon);
        proof {
            assert(cut(chars@, ranges@)[k as int] == line@);
            assert(target.take(k + 1).drop_last() =~= target.take(k as int));
            assert(target.take(k + 1).last() == fixed@);
            if k == 0 {
                assert(r@ =~= Seq::<char>::empty());
            }
        }
        if k > 0 {
            r.append("\n");
        }
        r.append(fixed.as_str());
        proof {
            if k == 0 {
                assert(r@ =~= fixed@);
            }
        }
        k += 1;
    }
    assert(target.take(ranges.len() as int) =~= target);
    r
}

} // verus!
