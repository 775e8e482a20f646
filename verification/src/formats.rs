use vstd::prelude::*;
use vstd::string::*;

verus! {

/// A kind of content the clipboard can hold.
#[derive(Clone, Copy, PartialEq, Eq, Debug, Structural)]
pub enum ClipboardFormat {
    Text,
    Html,
    Image,
    Files,
}

impl ClipboardFormat {
    /// The name a reply gives this format.
    pub open spec fn spec_name(self) -> Seq<char> {
        match self {
            ClipboardFormat::Text => "text"@,
            ClipboardFormat::Html => "html"@,
            ClipboardFormat::Image => "image"@,
            ClipboardFormat::Files => "files"@,
        }
    }

    /// The name a reply gives this format.
    pub fn name(&self) -> (r: &'static str)
        ensures
            r@ == self.spec_name(),
            *self == ClipboardFormat::Text ==> r@ == "text"@,
            *self == ClipboardFormat::Html ==> r@ == "html"@,
            *self == ClipboardFormat::Image ==> r@ == "image"@,
            *self == ClipboardFormat::Files ==> r@ == "files"@,
    {
        match self {
            ClipboardFormat::Text => "text",
            ClipboardFormat::Html => "html",
            ClipboardFormat::Image => "image",
            ClipboardFormat::Files => "files",
        }
    }
}

/// `f` where `present` holds, nothing otherwise.
pub open spec fn if_present(present: bool, f: ClipboardFormat) -> Seq<ClipboardFormat> {
    if present {
        seq![f]
    } else {
        seq![]
    }
}

/// The formats found, in the order text, HTML, image, file list.
pub open spec fn present_formats(text: bool, html: bool, image: bool, files: bool) -> Seq<
    ClipboardFormat,
> {
    if_present(text, ClipboardFormat::Text) + if_present(html, ClipboardFormat::Html)
        + if_present(image, ClipboardFormat::Image) + if_present(files, ClipboardFormat::Files)
}

/// The rank of a format in the fixed order text, html, image, files.
pub open spec fn listing_rank(f: ClipboardFormat) -> int {
    match f {
        ClipboardFormat::Text => 0,
        ClipboardFormat::Html => 1,
        ClipboardFormat::Image => 2,
        ClipboardFormat::Files => 3,
    }
}

/// A format is listed exactly when reading it succeeded, each once, in the
/// order text, html, image, files.
pub proof fn formats_found_are_exactly_those_read(text: bool, html: bool, image: bool, files: bool)
    ensures
        present_formats(text, html, image, files).contains(ClipboardFormat::Text) <==> text,
        present_formats(text, html, image, files).contains(ClipboardFormat::Html) <==> html,
        present_formats(text, html, image, files).contains(ClipboardFormat::Image) <==> image,
        present_formats(text, html, image, files).contains(ClipboardFormat::Files) <==> files,
        present_formats(text, html, image, files).len() == (text as int) + (html as int) + (
        image as int) + (files as int),
        forall|i: int, j: int|
            0 <= i < j < present_formats(text, html, image, files).len() ==> listing_rank(
                #[trigger] present_formats(text, html, image, files)[i],
            ) < listing_rank(#[trigger] present_formats(text, html, image, files)[j]),
{
    let r = present_formats(text, html, image, files);
    if text {
        if html {
            if image {
                if files {
                    assert(r =~= seq![ClipboardFormat::Text, ClipboardFormat::Html, ClipboardFormat::Image, ClipboardFormat::Files]);
                    assert(r[0] == ClipboardFormat::Text);
                    assert(r[1] == ClipboardFormat::Html);
                    assert(r[2] == ClipboardFormat::Image);
                    assert(r[3] == ClipboardFormat::Files);
                } else {
                    assert(r =~= seq![ClipboardFormat::Text, ClipboardFormat::Html, ClipboardFormat::Image]);
                    assert(r[0] == ClipboardFormat::Text);
                    assert(r[1] == ClipboardFormat::Html);
                    assert(r[2] == ClipboardFormat::Image);
                }
            } else {
                if files {
                    assert(r =~= seq![ClipboardFormat::Text, ClipboardFormat::Html, ClipboardFormat::Files]);
                    assert(r[0] == ClipboardFormat::Text);
                    assert(r[1] == ClipboardFormat::Html);
                    assert(r[2] == ClipboardFormat::Files);
                } else {
                    assert(r =~= seq![ClipboardFormat::Text, ClipboardFormat::Html]);
                    assert(r[0] == ClipboardFormat::Text);
                    assert(r[1] == ClipboardFormat::Html);
                }
            }
        } else {
            if image {
                if files {
                    assert(r =~= seq![ClipboardFormat::Text, ClipboardFormat::Image, ClipboardFormat::Files]);
                    assert(r[0] == ClipboardFormat::Text);
                    assert(r[1] == ClipboardFormat::Image);
                    assert(r[2] == ClipboardFormat::Files);
                } else {
                    assert(r =~= seq![ClipboardFormat::Text, ClipboardFormat::Image]);
                    assert(r[0] == ClipboardFormat::Text);
                    assert(r[1] == ClipboardFormat::Image);
                }
            } else {
                if files {
                    assert(r =~= seq![ClipboardFormat::Text, ClipboardFormat::Files]);
                    assert(r[0] == ClipboardFormat::Text);
                    assert(r[1] == ClipboardFormat::Files);
                } else {
                    assert(r =~= seq![ClipboardFormat::Text]);
                    assert(r[0] == ClipboardFormat::Text);
                }
            }
        }
    } else {
        if html {
            if image {
                if files {
                    assert(r =~= seq![ClipboardFormat::Html, ClipboardFormat::Image, ClipboardFormat::Files]);
                    assert(r[0] == ClipboardFormat::Html);
                    assert(r[1] == ClipboardFormat::Image);
                    assert(r[2] == ClipboardFormat::Files);
                } else {
                    assert(r =~= seq![ClipboardFormat::Html, ClipboardFormat::Image]);
                    assert(r[0] == ClipboardFormat::Html);
                    assert(r[1] == ClipboardFormat::Image);
                }
            } else {
                if files {
                    assert(r =~= seq![ClipboardFormat::Html, ClipboardFormat::Files]);
                    assert(r[0] == ClipboardFormat::Html);
                    assert(r[1] == ClipboardFormat::Files);
                } else {
                    assert(r =~= seq![ClipboardFormat::Html]);
                    assert(r[0] == ClipboardFormat::Html);
                }
            }
        } else {
            if image {
                if files {
                    assert(r =~= seq![ClipboardFormat::Image, ClipboardFormat::Files]);
                    assert(r[0] == ClipboardFormat::Image);
                    assert(r[1] == ClipboardFormat::Files);
                } else {
                    assert(r =~= seq![ClipboardFormat::Image]);
                    assert(r[0] == ClipboardFormat::Image);
                }
            } else {
                if files {
                    assert(r =~= seq![ClipboardFormat::Files]);
                    assert(r[0] == ClipboardFormat::Files);
                } else {
                    assert(r =~= Seq::<ClipboardFormat>::empty());
                }
            }
        }
    }
}

/// The formats on the clipboard, given which of the four reads succeeded.
pub fn probe_clipboard_formats(text: bool, html: bool, image: bool, files: bool) -> (r: Vec<
    ClipboardFormat,
>)
    ensures
        r@ == present_formats(text, html, image, files),
        r@.contains(ClipboardFormat::Text) <==> text,
        r@.contains(ClipboardFormat::Html) <==> html,
        r@.contains(ClipboardFormat::Image) <==> image,
        r@.contains(ClipboardFormat::Files) <==> files,
        r@.len() == (text as int) + (html as int) + (image as int) + (files as int),
{
    proof {
        formats_found_are_exactly_those_read(text, html, image, files);
    }
    let mut formats: Vec<ClipboardFormat> = Vec::new();
    if text {
        formats.push(ClipboardFormat::Text);
    }
    if html {
        formats.push(ClipboardFormat::Html);
    }
    if image {
        formats.push(ClipboardFormat::Image);
    }
    if files {
        formats.push(ClipboardFormat::Files);
    }
    formats
}

/// The names of `fs`, separated by a comma and a space.
pub open spec fn join_names(fs: Seq<ClipboardFormat>) -> Seq<char>
    decreases fs.len(),
{
    if fs.len() == 0 {
        seq![]
    } else if fs.len() == 1 {
        fs[0].spec_name()
    } else {
        join_names(fs.drop_last()) + ", "@ + fs.last().spec_name()
    }
}

/// The reply of `list_clipboard_formats` for the formats found.
pub open spec fn formats_text(fs: Seq<ClipboardFormat>) -> Seq<char> {
    if fs.len() == 0 {
        "[clipboard is empty \u{2014} no formats detected]"@
    } else {
        "Available clipboard formats: "@ + join_names(fs)
    }
}

/// The listing names every format found, in order, separated by ", ":
/// one format is its name alone, and one more format adds a comma, a space
/// and its name; with no format found the reply says so.
pub proof fn listing_joins_names_with_commas(fs: Seq<ClipboardFormat>, g: ClipboardFormat)
    ensures
        formats_text(Seq::empty()) == "[clipboard is empty \u{2014} no formats detected]"@,
        fs.len() > 0 ==> formats_text(fs) == "Available clipboard formats: "@ + join_names(fs),
        join_names(seq![g]) == g.spec_name(),
        fs.len() > 0 ==> join_names(fs.push(g)) == join_names(fs) + ", "@ + g.spec_name(),
        ClipboardFormat::Text.spec_name() == "text"@,
        ClipboardFormat::Html.spec_name() == "html"@,
        ClipboardFormat::Image.spec_name() == "image"@,
        ClipboardFormat::Files.spec_name() == "files"@,
{
    assert(fs.push(g).drop_last() =~= fs);
}

/// Reply text of `list_clipboard_formats`.
pub fn list_clipboard_formats_reply(formats: &Vec<ClipboardFormat>) -> (r: String)
    ensures
        r@ == formats_text(formats@),
{
    if formats.len() == 0 {
        return String::from_str("[clipboard is empty \u{2014} no formats detected]");
    }
    let mut r = String::from_str("Available clipboard formats: ");
    let ghost start = r@;
    let n = formats.len();
    let mut i: usize = 0;
    while i < n
        invariant
            n == formats@.len(),
            i <= n,
            start == "Available clipboard formats: "@,
            r@ == start + join_names(formats@.take(i as int)),
        decreases n - i,
    {
        assert(formats@.take(i + 1).drop_last() =~= formats@.take(i as int));
        if i > 0 {
            r.append(", ");
        }
        r.append(formats[i].name());
        proof {
            let t = formats@.take(i + 1);
            assert(t.last() == formats@[i as int]);
            if i == 0 {
                assert(join_names(formats@.take(0)) =~= Seq::<char>::empty());
            }
        }
        i += 1;
    }
    assert(formats@.take(n as int) =~= formats@);
    r
}

} // verus!
