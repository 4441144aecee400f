//! The two fixed pages of the site: Home and About.
//!
//! Spec functions give the exact text of each document; the builders are
//! proved to return exactly that text, so every generation run produces the
//! same bytes. Lemmas at the end state the structural facts that hold of the
//! generated documents.

use vstd::prelude::*;

use crate::markup::contains_frag;
use crate::markup::elem;
use crate::markup::elem_attr;
use crate::markup::elem_attr2;
use crate::markup::free_of_pair;
use crate::markup::lemma_concat_prefix;
use crate::markup::lemma_contains_frag_append;
use crate::markup::lemma_contains_frag_prepend;
use crate::markup::lemma_contains_frag_self;
use crate::markup::lemma_elem_contains;
use crate::markup::lemma_free_of_pair_concat;
use crate::markup::lemma_free_of_pair_elem;
use crate::markup::lemma_free_of_pair_elem_attr;
use crate::markup::lemma_free_of_pair_elem_attr2;
use crate::markup::lemma_free_of_pair_excludes_frag;
use crate::markup::spec_elem;
use crate::markup::spec_elem_attr;
use crate::markup::spec_elem_attr2;

verus! {

/// The doctype declaration that opens every document.
pub open spec fn spec_doctype() -> Seq<char> {
    "<!DOCTYPE html>"@
}

/// The navigation list of the shared header: links to the site root and to
/// the About page.
pub open spec fn spec_nav() -> Seq<char> {
    spec_elem(
        "nav"@,
        spec_elem(
            "ul"@,
            spec_elem("li"@, spec_elem_attr("a"@, "href"@, "/"@, "Home"@)) + spec_elem(
                "li"@,
                spec_elem_attr("a"@, "href"@, "pages/about.html"@, "About"@),
            ),
        ),
    )
}

/// The decorative block of the shared header.
pub open spec fn spec_banner() -> Seq<char> {
    spec_elem_attr("div"@, "class"@, "soldo-class"@, spec_elem("p"@, "Ojla"@))
}

/// The header fragment embedded into every page.
pub open spec fn spec_header() -> Seq<char> {
    spec_nav() + spec_banner()
}

/// The counter element of the Home page, initialized to the text `0`.
pub open spec fn spec_counter() -> Seq<char> {
    spec_elem_attr("p"@, "id"@, "counter"@, "0"@)
}

/// The script element referencing the script served at `/main.js`.
pub open spec fn spec_script_ref() -> Seq<char> {
    spec_elem_attr("script"@, "src"@, "/main.js"@, ""@)
}

/// The link element referencing the stylesheet served at `/main.css`.
pub open spec fn spec_style_ref() -> Seq<char> {
    spec_elem_attr2("link"@, "rel"@, "stylesheet"@, "href"@, "/main.css"@, ""@)
}

/// Contents of the Home page's head element.
pub open spec fn spec_home_head() -> Seq<char> {
    spec_elem("title"@, "Home"@) + spec_script_ref() + spec_style_ref()
}

/// Contents of the Home page's body element.
pub open spec fn spec_home_body() -> Seq<char> {
    spec_header() + spec_elem("h1"@, "Home"@) + spec_elem("p"@, "Welcome to the Home page!"@)
        + spec_counter() + spec_elem_attr("button"@, "onclick"@, "incrementCounter()"@, "Increment"@)
}

/// Contents of the Home page's root element: its head and its body.
pub open spec fn spec_home_root() -> Seq<char> {
    spec_elem("head"@, spec_home_head()) + spec_elem("body"@, spec_home_body())
}

/// The complete Home document.
pub open spec fn spec_home_page() -> Seq<char> {
    spec_doctype() + spec_elem("html"@, spec_home_root())
}

/// Contents of the About page's head element.
pub open spec fn spec_about_head() -> Seq<char> {
    spec_elem("title"@, "About"@) + spec_style_ref()
}

/// Contents of the About page's body element.
pub open spec fn spec_about_body() -> Seq<char> {
    spec_header() + spec_elem("h1"@, "About"@) + spec_elem("p"@, "This is the About page."@)
}

/// Contents of the About page's root element: its head and its body.
pub open spec fn spec_about_root() -> Seq<char> {
    spec_elem("head"@, spec_about_head()) + spec_elem("body"@, spec_about_body())
}

/// The complete About document.
pub open spec fn spec_about_page() -> Seq<char> {
    spec_doctype() + spec_elem("html"@, spec_about_root())
}

/// Builds the header fragment shared by every page.
pub fn header() -> (r: String)
    ensures
        r@ == spec_header(),
{
    let home_link = elem_attr("a", "href", "/", "Home");
    let about_link = elem_attr("a", "href", "pages/about.html", "About");
    let mut items = elem("li", home_link.as_str());
    let second = elem("li", about_link.as_str());
    items.append(second.as_str());
    let list = elem("ul", items.as_str());
    let mut r = elem("nav", list.as_str());
    let text = elem("p", "Ojla");
    let banner = elem_attr("div", "class", "soldo-class", text.as_str());
    r.append(banner.as_str());
    r
}

/// Builds the complete Home document.
pub fn generate_home_page() -> (r: String)
    ensures
        r@ == spec_home_page(),
{
    let mut head_inner = elem("title", "Home");
    let script_ref = elem_attr("script", "src", "/main.js", "");
    head_inner.append(script_ref.as_str());
    let style_ref = elem_attr2("link", "rel", "stylesheet", "href", "/main.css", "");
    head_inner.append(style_ref.as_str());

    let mut body_inner = header();
    let heading = elem("h1", "Home");
    body_inner.append(heading.as_str());
    let welcome = elem("p", "Welcome to the Home page!");
    body_inner.append(welcome.as_str());
    let counter = elem_attr("p", "id", "counter", "0");
    body_inner.append(counter.as_str());
    let button = elem_attr("button", "onclick", "incrementCounter()", "Increment");
    body_inner.append(button.as_str());

    let mut root_inner = elem("head", head_inner.as_str());
    let body = elem("body", body_inner.as_str());
    root_inner.append(body.as_str());
    let root = elem("html", root_inner.as_str());

    let mut r = String::from_str("<!DOCTYPE html>");
    r.append(root.as_str());
    r
}

/// Builds the complete About document.
pub fn generate_about_page() -> (r: String)
    ensures
        r@ == spec_about_page(),
{
    let mut head_inner = elem("title", "About");
    let style_ref = elem_attr2("link", "rel", "stylesheet", "href", "/main.css", "");
    head_inner.append(style_ref.as_str());

    let mut body_inner = header();
    let heading = elem("h1", "About");
    body_inner.append(heading.as_str());
    let text = elem("p", "This is the About page.");
    body_inner.append(text.as_str());

    let mut root_inner = elem("head", head_inner.as_str());
    let body = elem("body", body_inner.as_str());
    root_inner.append(body.as_str());
    let root = elem("html", root_inner.as_str());

    let mut r = String::from_str("<!DOCTYPE html>");
    r.append(root.as_str());
    r
}

/// A fragment of the Home body is a fragment of the Home document.
proof fn lemma_home_body_frag(frag: Seq<char>)
    requires
        contains_frag(spec_home_body(), frag),
    ensures
        contains_frag(spec_home_page(), frag),
{
    lemma_elem_contains("body"@, spec_home_body(), frag);
    lemma_contains_frag_prepend(
        spec_elem("head"@, spec_home_head()),
        spec_elem("body"@, spec_home_body()),
        frag,
    );
    lemma_elem_contains("html"@, spec_home_root(), frag);
    lemma_contains_frag_prepend(spec_doctype(), spec_elem("html"@, spec_home_root()), frag);
}

/// A fragment of the Home head is a fragment of the Home document.
proof fn lemma_home_head_frag(frag: Seq<char>)
    requires
        contains_frag(spec_home_head(), frag),
    ensures
        contains_frag(spec_home_page(), frag),
{
    lemma_elem_contains("head"@, spec_home_head(), frag);
    lemma_contains_frag_append(
        spec_elem("head"@, spec_home_head()),
        spec_elem("body"@, spec_home_body()),
        frag,
    );
    lemma_elem_contains("html"@, spec_home_root(), frag);
    lemma_contains_frag_prepend(spec_doctype(), spec_elem("html"@, spec_home_root()), frag);
}

/// A fragment of the About body is a fragment of the About document.
proof fn lemma_about_body_frag(frag: Seq<char>)
    requires
        contains_frag(spec_about_body(), frag),
    ensures
        contains_frag(spec_about_page(), frag),
{
    lemma_elem_contains("body"@, spec_about_body(), frag);
    lemma_contains_frag_prepend(
        spec_elem("head"@, spec_about_head()),
        spec_elem("body"@, spec_about_body()),
        frag,
    );
    lemma_elem_contains("html"@, spec_about_root(), frag);
    lemma_contains_frag_prepend(spec_doctype(), spec_elem("html"@, spec_about_root()), frag);
}

/// A fragment of the About head is a fragment of the About document.
proof fn lemma_about_head_frag(frag: Seq<char>)
    requires
        contains_frag(spec_about_head(), frag),
    ensures
        contains_frag(spec_about_page(), frag),
{
    lemma_elem_contains("head"@, spec_about_head(), frag);
    lemma_contains_frag_append(
        spec_elem("head"@, spec_about_head()),
        spec_elem("body"@, spec_about_body()),
        frag,
    );
    lemma_elem_contains("html"@, spec_about_root(), frag);
    lemma_contains_frag_prepend(spec_doctype(), spec_elem("html"@, spec_about_root()), frag);
}

/// Well-formedness of the generated documents: each one starts with the
/// doctype declaration, and the whole document is that declaration followed
/// by the rendering of a single root `html` element.
pub proof fn lemma_documents_well_formed()
    ensures
        spec_home_page() == spec_doctype() + spec_elem("html"@, spec_home_root()),
        spec_about_page() == spec_doctype() + spec_elem("html"@, spec_about_root()),
        spec_doctype().len() <= spec_home_page().len(),
        spec_doctype().len() <= spec_about_page().len(),
        spec_home_page().subrange(0, spec_doctype().len() as int) == spec_doctype(),
        spec_about_page().subrange(0, spec_doctype().len() as int) == spec_doctype(),
{
    lemma_concat_prefix(spec_doctype(), spec_elem("html"@, spec_home_root()));
    lemma_concat_prefix(spec_doctype(), spec_elem("html"@, spec_about_root()));
}

/// Idempotence of generation: the builders admit a single possible output per
/// page, so any two runs produce byte-identical documents.
pub proof fn lemma_regeneration_identical(
    home1: Seq<char>,
    home2: Seq<char>,
    about1: Seq<char>,
    about2: Seq<char>,
)
    requires
        home1 == spec_home_page(),
        home2 == spec_home_page(),
        about1 == spec_about_page(),
        about2 == spec_about_page(),
    ensures
        home1 == home2,
        about1 == about2,
{
}

/// The Home document contains a `p` element with id `counter` whose text
/// content is exactly `0`.
pub proof fn lemma_home_counter_initialized()
    ensures
        contains_frag(spec_home_page(), spec_counter()),
{
    let pre = spec_header() + spec_elem("h1"@, "Home"@) + spec_elem(
        "p"@,
        "Welcome to the Home page!"@,
    );
    lemma_contains_frag_self(spec_counter());
    lemma_contains_frag_prepend(pre, spec_counter(), spec_counter());
    lemma_contains_frag_append(
        pre + spec_counter(),
        spec_elem_attr("button"@, "onclick"@, "incrementCounter()"@, "Increment"@),
        spec_counter(),
    );
    lemma_home_body_frag(spec_counter());
}

/// Asset references: the Home document contains the script element for
/// `/main.js` and the stylesheet element for `/main.css`; the About document
/// contains the stylesheet element.
pub proof fn lemma_asset_references()
    ensures
        contains_frag(spec_home_page(), spec_script_ref()),
        contains_frag(spec_home_page(), spec_style_ref()),
        contains_frag(spec_about_page(), spec_style_ref()),
{
    let title_home = spec_elem("title"@, "Home"@);
    lemma_contains_frag_self(spec_script_ref());
    lemma_contains_frag_prepend(title_home, spec_script_ref(), spec_script_ref());
    lemma_contains_frag_append(title_home + spec_script_ref(), spec_style_ref(), spec_script_ref());
    lemma_home_head_frag(spec_script_ref());

    lemma_contains_frag_self(spec_style_ref());
    lemma_contains_frag_prepend(title_home + spec_script_ref(), spec_style_ref(), spec_style_ref());
    lemma_home_head_frag(spec_style_ref());

    lemma_contains_frag_prepend(spec_elem("title"@, "About"@), spec_style_ref(), spec_style_ref());
    lemma_about_head_frag(spec_style_ref());
}

/// Nowhere in the About document does a `j` stand right before an `s`.
#[verifier::rlimit(50)]
proof fn lemma_about_free_of_js()
    ensures
        free_of_pair(spec_about_page(), 'j', 's'),
{
    let c1 = 'j';
    let c2 = 's';
    reveal_strlit("<!DOCTYPE html>");
    reveal_strlit("<");
    reveal_strlit(">");
    reveal_strlit("</");
    reveal_strlit(" ");
    reveal_strlit("=\"");
    reveal_strlit("\"");
    reveal_strlit("html");
    reveal_strlit("head");
    reveal_strlit("title");
    reveal_strlit("link");
    reveal_strlit("body");
    reveal_strlit("nav");
    reveal_strlit("ul");
    reveal_strlit("li");
    reveal_strlit("a");
    reveal_strlit("div");
    reveal_strlit("p");
    reveal_strlit("h1");
    reveal_strlit("rel");
    reveal_strlit("href");
    reveal_strlit("class");
    reveal_strlit("stylesheet");
    reveal_strlit("/main.css");
    reveal_strlit("/");
    reveal_strlit("pages/about.html");
    reveal_strlit("soldo-class");
    reveal_strlit("About");
    reveal_strlit("Home");
    reveal_strlit("This is the About page.");
    reveal_strlit("Ojla");
    reveal_strlit("");

    let home_link = spec_elem_attr("a"@, "href"@, "/"@, "Home"@);
    let about_link = spec_elem_attr("a"@, "href"@, "pages/about.html"@, "About"@);
    lemma_free_of_pair_elem_attr("a"@, "href"@, "/"@, "Home"@, c1, c2);
    lemma_free_of_pair_elem("li"@, home_link, c1, c2);
    lemma_free_of_pair_elem_attr("a"@, "href"@, "pages/about.html"@, "About"@, c1, c2);
    lemma_free_of_pair_elem("li"@, about_link, c1, c2);
    lemma_free_of_pair_concat(spec_elem("li"@, home_link), spec_elem("li"@, about_link), c1, c2);
    lemma_free_of_pair_elem(
        "ul"@,
        spec_elem("li"@, home_link) + spec_elem("li"@, about_link),
        c1,
        c2,
    );
    lemma_free_of_pair_elem(
        "nav"@,
        spec_elem("ul"@, spec_elem("li"@, home_link) + spec_elem("li"@, about_link)),
        c1,
        c2,
    );
    lemma_free_of_pair_elem("p"@, "Ojla"@, c1, c2);
    lemma_free_of_pair_elem_attr("div"@, "class"@, "soldo-class"@, spec_elem("p"@, "Ojla"@), c1, c2);
    lemma_free_of_pair_concat(spec_nav(), spec_banner(), c1, c2);

    lemma_free_of_pair_elem("h1"@, "About"@, c1, c2);
    lemma_free_of_pair_concat(spec_header(), spec_elem("h1"@, "About"@), c1, c2);
    lemma_free_of_pair_elem("p"@, "This is the About page."@, c1, c2);
    lemma_free_of_pair_concat(
        spec_header() + spec_elem("h1"@, "About"@),
        spec_elem("p"@, "This is the About page."@),
        c1,
        c2,
    );
    lemma_free_of_pair_elem("body"@, spec_about_body(), c1, c2);

    lemma_free_of_pair_elem("title"@, "About"@, c1, c2);
    lemma_free_of_pair_elem_attr2(
        "link"@,
        "rel"@,
        "stylesheet"@,
        "href"@,
        "/main.css"@,
        ""@,
        c1,
        c2,
    );
    lemma_free_of_pair_concat(spec_elem("title"@, "About"@), spec_style_ref(), c1, c2);
    lemma_free_of_pair_elem("head"@, spec_about_head(), c1, c2);

    lemma_free_of_pair_concat(
        spec_elem("head"@, spec_about_head()),
        spec_elem("body"@, spec_about_body()),
        c1,
        c2,
    );
    lemma_free_of_pair_elem("html"@, spec_about_root(), c1, c2);
    lemma_free_of_pair_concat(spec_doctype(), spec_elem("html"@, spec_about_root()), c1, c2);
}

/// The About document carries no script reference: the text `/main.js` does
/// not occur anywhere in it. Its occurrence would put a `j` right before an
/// `s`, and the About document nowhere holds that pair of characters.
pub proof fn lemma_about_no_script_reference()
    ensures
        !contains_frag(spec_about_page(), "/main.js"@),
{
    lemma_about_free_of_js();
    reveal_strlit("/main.js");
    lemma_free_of_pair_excludes_frag(spec_about_page(), "/main.js"@, 'j', 's', 6);
}

/// The header fragment is one and the same character sequence in both
/// documents: each of them contains `spec_header()` itself, which holds the
/// navigation links to the site root and to the About page.
pub proof fn lemma_header_shared()
    ensures
        contains_frag(spec_home_page(), spec_header()),
        contains_frag(spec_about_page(), spec_header()),
        contains_frag(spec_header(), spec_elem_attr("a"@, "href"@, "/"@, "Home"@)),
        contains_frag(spec_header(), spec_elem_attr("a"@, "href"@, "pages/about.html"@, "About"@)),
{
    lemma_contains_frag_self(spec_header());
    lemma_contains_frag_append(spec_header(), spec_elem("h1"@, "Home"@), spec_header());
    lemma_contains_frag_append(
        spec_header() + spec_elem("h1"@, "Home"@),
        spec_elem("p"@, "Welcome to the Home page!"@),
        spec_header(),
    );
    lemma_contains_frag_append(
        spec_header() + spec_elem("h1"@, "Home"@) + spec_elem("p"@, "Welcome to the Home page!"@),
        spec_counter(),
        spec_header(),
    );
    lemma_contains_frag_append(
        spec_header() + spec_elem("h1"@, "Home"@) + spec_elem("p"@, "Welcome to the Home page!"@)
            + spec_counter(),
        spec_elem_attr("button"@, "onclick"@, "incrementCounter()"@, "Increment"@),
        spec_header(),
    );
    lemma_home_body_frag(spec_header());

    lemma_contains_frag_append(spec_header(), spec_elem("h1"@, "About"@), spec_header());
    lemma_contains_frag_append(
        spec_header() + spec_elem("h1"@, "About"@),
        spec_elem("p"@, "This is the About page."@),
        spec_header(),
    );
    lemma_about_body_frag(spec_header());

    let home_link = spec_elem_attr("a"@, "href"@, "/"@, "Home"@);
    let about_link = spec_elem_attr("a"@, "href"@, "pages/about.html"@, "About"@);
    lemma_contains_frag_self(home_link);
    lemma_elem_contains("li"@, home_link, home_link);
    lemma_contains_frag_append(spec_elem("li"@, home_link), spec_elem("li"@, about_link), home_link);
    lemma_elem_contains("ul"@, spec_elem("li"@, home_link) + spec_elem("li"@, about_link), home_link);
    lemma_elem_contains(
        "nav"@,
        spec_elem("ul"@, spec_elem("li"@, home_link) + spec_elem("li"@, about_link)),
        home_link,
    );
    lemma_contains_frag_append(spec_nav(), spec_banner(), home_link);

    lemma_contains_frag_self(about_link);
    lemma_elem_contains("li"@, about_link, about_link);
    lemma_contains_frag_prepend(
        spec_elem("li"@, home_link),
        spec_elem("li"@, about_link),
        about_link,
    );
    lemma_elem_contains(
        "ul"@,
        spec_elem("li"@, home_link) + spec_elem("li"@, about_link),
        about_link,
    );
    lemma_elem_contains(
        "nav"@,
        spec_elem("ul"@, spec_elem("li"@, home_link) + spec_elem("li"@, about_link)),
        about_link,
    );
    lemma_contains_frag_append(spec_nav(), spec_banner(), about_link);
}

} // verus!
