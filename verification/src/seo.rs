//! The sitemap of the catalog: one entry for each series, with the time of
//! its last change.

use vstd::prelude::*;

verus! {

pub const ANIME_SITEMAP_FILE: &'static str = "anime_index.xml";

pub const ANIMES_SITEMAP_BATCH_SIZE: u32 = 32;

/// What the sitemap needs of a series.
#[derive(Debug, Clone)]
pub struct Metadata {
    pub id: String,
    /// The time of the last change, in milliseconds since the Unix epoch.
    pub updated_on: u64,
}

/// The date and time that `chrono` writes, after RFC 3339 and in UTC, for an
/// instant given in milliseconds since the Unix epoch; `None` for an instant
/// beyond the dates that it can hold.
pub uninterp spec fn rfc3339_text(millis: int) -> Option<Seq<char>>;

/// `chrono::Utc.timestamp_millis_opt(millis).latest()`, then
/// `DateTime::to_rfc3339` on the instant where there is one.
#[verifier::external_body]
fn rfc3339(millis: i64) -> (text: Option<String>)
    ensures
        match text {
            Some(t) => rfc3339_text(millis as int) == Some(t@),
            None => rfc3339_text(millis as int) is None,
        },
{
    chrono::TimeZone::timestamp_millis_opt(&chrono::Utc, millis).latest().map(|t| t.to_rfc3339())
}

/// One character as it stands in XML text.
pub open spec fn escaped_char(c: char) -> Seq<char> {
    if c == '&' {
        "&amp;"@
    } else if c == '\'' {
        "&apos;"@
    } else if c == '>' {
        "&gt;"@
    } else if c == '<' {
        "&lt;"@
    } else {
        seq![c]
    }
}

/// A text as it stands in XML text: `&`, `'`, `>` and `<` replaced by their
/// entities.
pub open spec fn escaped(s: Seq<char>) -> Seq<char>
    decreases s.len(),
{
    if s.len() == 0 {
        Seq::<char>::empty()
    } else {
        escaped(s.drop_last()) + escaped_char(s.last())
    }
}

/// Appends a text to `out` as it stands in XML text.
pub fn write_escaped(out: &mut String, s: &str)
    ensures
        final(out)@ == old(out)@ + escaped(s@),
{
    let chars = crate::text::chars_of(s);
    let mut i: usize = 0;
    assert(chars@.subrange(0, 0) =~= Seq::<char>::empty());
    while i < chars.len()
        invariant
            i <= chars.len(),
            chars@ == s@,
            out@ == old(out)@ + escaped(chars@.subrange(0, i as int)),
        decreases chars.len() - i,
    {
        let c = chars[i];
        let ghost before = out@;
        if c == '&' {
            out.append("&amp;");
        } else if c == '\'' {
            out.append("&apos;");
        } else if c == '>' {
            out.append("&gt;");
        } else if c == '<' {
            out.append("&lt;");
        } else {
            out.push(c);
        }
        proof {
            let next = chars@.subrange(0, i + 1);
            assert(next.drop_last() =~= chars@.subrange(0, i as int));
            assert(next.last() == c);
            assert(out@ =~= before + escaped_char(c));
            assert(out@ =~= old(out)@ + escaped(next));
        }
        i = i + 1;
    }
    assert(chars@.subrange(0, chars@.len() as int) =~= chars@);
}

/// The date of the last change as the sitemap shows it, where it can be
/// shown.
pub open spec fn last_modified(updated_on: u64) -> Option<Seq<char>> {
    if updated_on <= i64::MAX as u64 {
        rfc3339_text(updated_on as int)
    } else {
        None
    }
}

/// What the sitemap says of the freshness of an entry: its date of last
/// change, or that it changes monthly where the date cannot be shown.
pub open spec fn freshness(updated_on: u64) -> Seq<char> {
    match last_modified(updated_on) {
        Some(date) => "<lastmod>"@ + date + "</lastmod>"@,
        None => "<changefreq>monthly</changefreq>"@,
    }
}

/// The entry of a series in the sitemap.
pub open spec fn entry_text(domain: Seq<char>, entry: Metadata) -> Seq<char> {
    "<url>"@ + "<loc>https://"@ + domain + "/anime/"@ + escaped(entry.id@) + "</loc>"@
        + freshness(entry.updated_on) + "</url>"@
}

/// The opening of the sitemap.
pub fn sitemap_header() -> (text: String)
    ensures
        text@ == "<urlset xmlns=\"http://www.sitemaps.org/schemas/sitemap/0.9\">"@,
{
    String::from_str("<urlset xmlns=\"http://www.sitemaps.org/schemas/sitemap/0.9\">")
}

/// The end of the sitemap.
pub fn sitemap_footer() -> (text: String)
    ensures
        text@ == "</urlset>"@,
{
    String::from_str("</urlset>")
}

/// Writes the entry of a series in the sitemap of `domain`:
/// `<url><loc>https://{domain}/anime/{id}</loc>`, the freshness of the entry
/// and `</url>`, with the identifier escaped.
pub fn sitemap_entry(domain: &str, entry: &Metadata) -> (text: String)
    ensures
        text@ == entry_text(domain@, *entry),
{
    let mut text = String::from_str("<url>");
    text.append("<loc>https://");
    text.append(domain);
    text.append("/anime/");
    write_escaped(&mut text, entry.id.as_str());
    text.append("</loc>");
    let date = if entry.updated_on <= i64::MAX as u64 {
        rfc3339(entry.updated_on as i64)
    } else {
        None
    };
    match date {
        Some(d) => {
            text.append("<lastmod>");
            text.append(d.as_str());
            text.append("</lastmod>");
        },
        None => {
            text.append("<changefreq>monthly</changefreq>");
        },
    }
    text.append("</url>");
    assert(text@ =~= entry_text(domain@, *entry));
    text
}

/// The entries of the given series, one after the other.
pub open spec fn entries_text(domain: Seq<char>, entries: Seq<Metadata>) -> Seq<char>
    decreases entries.len(),
{
    if entries.len() == 0 {
        Seq::<char>::empty()
    } else {
        entries_text(domain, entries.drop_last()) + entry_text(domain, entries.last())
    }
}

/// The sitemap of the given series: the opening, their entries in order, and
/// the end.
pub open spec fn sitemap_text(domain: Seq<char>, entries: Seq<Metadata>) -> Seq<char> {
    "<urlset xmlns=\"http://www.sitemaps.org/schemas/sitemap/0.9\">"@ + entries_text(
        domain,
        entries,
    ) + "</urlset>"@
}

/// Writes the sitemap of the given series.
pub fn sitemap(domain: &str, entries: &Vec<Metadata>) -> (text: String)
    ensures
        text@ == sitemap_text(domain@, entries@),
{
    let mut text = sitemap_header();
    let ghost header = text@;
    let mut i: usize = 0;
    assert(entries@.subrange(0, 0) =~= Seq::<Metadata>::empty());
    while i < entries.len()
        invariant
            i <= entries.len(),
            text@ == header + entries_text(domain@, entries@.subrange(0, i as int)),
        decreases entries.len() - i,
    {
        let entry = sitemap_entry(domain, &entries[i]);
        text.append(entry.as_str());
        proof {
            let next = entries@.subrange(0, i + 1);
            assert(next.drop_last() =~= entries@.subrange(0, i as int));
            assert(next.last() == entries@[i as int]);
            assert(text@ =~= header + entries_text(domain@, next));
        }
        i = i + 1;
    }
    assert(entries@.subrange(0, entries@.len() as int) =~= entries@);
    text.append(sitemap_footer().as_str());
    text
}

} // verus!
