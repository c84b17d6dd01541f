//! Reading the map search page: records are cut out of the page text between marker pairs.

use vstd::prelude::*;

use crate::common::url::{percent_encode, url_encode};
use crate::text::{chars_of, decimal, find_first, find_in, first_field, push_str, split_at_char, string_of};
use vstd::utf8::encode_utf8;

verus! {

/// One map of the search results.
#[derive(Debug, Clone)]
pub struct MapSearchResult {
    pub id: u16,
    pub title: String,
    pub author: String,
    pub description: String,
    pub image_url: String,
}

/// The field a marker pair cuts from the start of `s`, and the text after it: the text
/// between the first occurrence of the start marker and the next occurrence of the end
/// marker; reading resumes one character after the start of that end marker.
pub open spec fn field_at(s: Seq<char>, rule: (Seq<char>, Seq<char>)) -> Option<(Seq<char>, Seq<char>)> {
    match find_first(s, rule.0) {
        None => None,
        Some(a) => {
            let r1 = s.skip(a + rule.0.len());
            match find_first(r1, rule.1) {
                None => None,
                Some(e) => Some((r1.take(e), r1.skip(e + 1))),
            }
        },
    }
}

/// The fields of one record, reading the rules from the `k`-th on, and the text after it.
pub open spec fn record_from(s: Seq<char>, rules: Seq<(Seq<char>, Seq<char>)>, k: int) -> Option<
    (Seq<Seq<char>>, Seq<char>),
>
    decreases rules.len() - k,
{
    if k < 0 || k >= rules.len() {
        Some((seq![], s))
    } else {
        match field_at(s, rules[k]) {
            None => None,
            Some((v, rest)) => match record_from(rest, rules, k + 1) {
                Some((vs, r2)) => Some((seq![v] + vs, r2)),
                None => None,
            },
        }
    }
}

/// The records of a text: one record after the other, until one is incomplete.
pub open spec fn records(s: Seq<char>, rules: Seq<(Seq<char>, Seq<char>)>) -> Seq<Seq<Seq<char>>>
    decreases s.len(),
{
    match record_from(s, rules, 0) {
        Some((vs, rest)) => if rest.len() < s.len() {
            seq![vs] + records(rest, rules)
        } else {
            seq![vs]
        },
        None => seq![],
    }
}

/// Marker pairs that the reader can use: at least one, each end marker starting with an
/// ASCII character.
pub open spec fn rules_usable(rules: Seq<(Seq<char>, Seq<char>)>) -> bool {
    &&& rules.len() > 0
    &&& forall|i: int| 0 <= i < rules.len() ==> #[trigger] rules[i].1.len() > 0 && (rules[i].1[0] as u32) < 128
}

/// The model of a list of marker pairs.
pub open spec fn rules_view(rules: Seq<(&str, &str)>) -> Seq<(Seq<char>, Seq<char>)> {
    rules.map_values(|r: (&str, &str)| (r.0@, r.1@))
}

/// The model of the records read.
pub open spec fn records_view(r: Seq<Vec<&str>>) -> Seq<Seq<Seq<char>>> {
    r.map_values(|f: Vec<&str>| f@.map_values(|x: &str| x@))
}

/// Extends a record being read by the fields still to come.
pub open spec fn prepend(fs: Seq<Seq<char>>, o: Option<(Seq<Seq<char>>, Seq<char>)>) -> Option<
    (Seq<Seq<char>>, Seq<char>),
> {
    match o {
        Some((vs, rest)) => Some((fs + vs, rest)),
        None => None,
    }
}

/// Reads one record starting at character `pos`: its fields, and where the text after it
/// starts.
fn read_record<'a>(
    buffer: &'a str,
    v: &Vec<char>,
    rules: &Vec<(Vec<char>, Vec<char>)>,
    pos: usize,
    Ghost(rs): Ghost<Seq<(Seq<char>, Seq<char>)>>,
) -> (r: Option<(Vec<&'a str>, usize)>)
    requires
        v@ == buffer@,
        pos <= v@.len(),
        rules_usable(rs),
        rules@.len() == rs.len(),
        forall|i: int| 0 <= i < rs.len() ==> (#[trigger] rules@[i]).0@ == rs[i].0 && rules@[i].1@ == rs[i].1,
    ensures
        match r {
            Some((fields, next)) => pos < next <= v@.len() && record_from(v@.skip(pos as int), rs, 0)
                == Some((fields@.map_values(|x: &str| x@), v@.skip(next as int))),
            None => record_from(v@.skip(pos as int), rs, 0) is None,
        },
{
    let mut fields: Vec<&'a str> = Vec::new();
    let mut p: usize = pos;
    let mut k: usize = 0;
    while k < rules.len()
        invariant
            v@ == buffer@,
            pos <= p <= v@.len(),
            k > 0 ==> pos < p,
            k <= rs.len(),
            rules_usable(rs),
            rules@.len() == rs.len(),
            forall|i: int| 0 <= i < rs.len() ==> (#[trigger] rules@[i]).0@ == rs[i].0 && rules@[i].1@ == rs[i].1,
            record_from(v@.skip(pos as int), rs, 0) == prepend(
                fields@.map_values(|x: &str| x@),
                record_from(v@.skip(p as int), rs, k as int),
            ),
        decreases rs.len() - k,
    {
        let ghost cur = v@.skip(p as int);
        let ghost fv = fields@.map_values(|x: &str| x@);
        let rule = &rules[k];
        assert(rule.0@ == rs[k as int].0 && rule.1@ == rs[k as int].1);
        let found_start = find_in(v, p, &rule.0);
        let a = match found_start {
            Some(a) => a,
            None => {
                assert(field_at(cur, rs[k as int]) is None);
                return None;
            },
        };
        let n = v.len();
        let start_len = rule.0.len();
        assert(a + start_len <= n - p);
        let p1: usize = p + a + start_len;
        assert(cur.skip(a + rs[k as int].0.len()) =~= v@.skip(p1 as int));
        let found_end = find_in(v, p1, &rule.1);
        let e = match found_end {
            Some(e) => e,
            None => {
                assert(field_at(cur, rs[k as int]) is None);
                return None;
            },
        };
        assert(rs[k as int].1.len() > 0);
        let field = buffer.substring_char(p1, p1 + e);
        assert(v@.skip(p1 as int).take(e as int) =~= v@.subrange(p1 as int, (p1 + e) as int));
        assert(v@.skip(p1 as int).skip(e + 1) =~= v@.skip((p1 + e + 1) as int));
        assert(field_at(cur, rs[k as int]) == Some((field@, v@.skip((p1 + e + 1) as int))));
        fields.push(field);
        p = p1 + e + 1;
        k = k + 1;
        let ghost nfv = fields@.map_values(|x: &str| x@);
        assert(nfv =~= fv.push(field@));
        proof {
            let tail = record_from(v@.skip(p as int), rs, k as int);
            match tail {
                Some((vs, r2)) => {
                    assert(fv + (seq![field@] + vs) =~= nfv + vs);
                },
                None => {},
            }
        }
    }
    assert(record_from(v@.skip(p as int), rs, k as int) == Some((Seq::<Seq<char>>::empty(), v@.skip(p as int))));
    assert(fields@.map_values(|x: &str| x@) + Seq::<Seq<char>>::empty() =~= fields@.map_values(|x: &str| x@));
    Some((fields, p))
}

/// Cuts records out of a text: for each marker pair in turn, the text between the first
/// occurrence of the start marker and the next occurrence of the end marker; reading goes on
/// one character after the start of that end marker. Records are read until one is
/// incomplete.
pub fn search_parse<'a>(buffer: &'a str, rules: &Vec<(&str, &str)>) -> (r: Vec<Vec<&'a str>>)
    requires
        rules_usable(rules_view(rules@)),
    ensures
        records_view(r@) == records(buffer@, rules_view(rules@)),
{
    let ghost rs = rules_view(rules@);
    let v = chars_of(buffer);
    let mut rule_chars: Vec<(Vec<char>, Vec<char>)> = Vec::new();
    let mut j: usize = 0;
    while j < rules.len()
        invariant
            j <= rules@.len(),
            rs == rules_view(rules@),
            rule_chars@.len() == j,
            forall|i: int| 0 <= i < j ==> (#[trigger] rule_chars@[i]).0@ == rs[i].0 && rule_chars@[i].1@ == rs[i].1,
        decreases rules@.len() - j,
    {
        let (s, e) = rules[j];
        rule_chars.push((chars_of(s), chars_of(e)));
        j = j + 1;
    }
    let mut out: Vec<Vec<&'a str>> = Vec::new();
    let mut pos: usize = 0;
    assert(v@.skip(0) =~= v@);
    loop
        invariant
            v@ == buffer@,
            pos <= v@.len(),
            rules_usable(rs),
            rs == rules_view(rules@),
            rule_chars@.len() == rs.len(),
            forall|i: int| 0 <= i < rs.len() ==> (#[trigger] rule_chars@[i]).0@ == rs[i].0 && rule_chars@[i].1@ == rs[i].1,
            records(buffer@, rs) == records_view(out@) + records(v@.skip(pos as int), rs),
        decreases v@.len() - pos,
    {
        let ghost before = records_view(out@);
        match read_record(buffer, &v, &rule_chars, pos, Ghost(rs)) {
            None => {
                assert(records(v@.skip(pos as int), rs) =~= Seq::<Seq<Seq<char>>>::empty());
                assert(records_view(out@) + Seq::<Seq<Seq<char>>>::empty() =~= records_view(out@));
                return out;
            },
            Some((fields, next)) => {
                let ghost fv = fields@.map_values(|x: &str| x@);
                assert(v@.skip(next as int).len() < v@.skip(pos as int).len());
                out.push(fields);
                assert(records_view(out@) =~= before.push(fv));
                assert(records(v@.skip(pos as int), rs) == seq![fv] + records(v@.skip(next as int), rs));
                assert(before + (seq![fv] + records(v@.skip(next as int), rs)) =~= before.push(fv)
                    + records(v@.skip(next as int), rs));
                pos = next;
            },
        }
    }
}


/// Each record has one field per marker pair.
proof fn lemma_record_len(s: Seq<char>, rules: Seq<(Seq<char>, Seq<char>)>, k: int)
    requires
        0 <= k <= rules.len(),
    ensures
        record_from(s, rules, k) matches Some((vs, _)) ==> vs.len() == rules.len() - k,
    decreases rules.len() - k,
{
    if k < rules.len() {
        match field_at(s, rules[k]) {
            Some((v, rest)) => lemma_record_len(rest, rules, k + 1),
            None => {},
        }
    }
}

/// Every record read has one field per marker pair.
pub proof fn lemma_records_len(s: Seq<char>, rules: Seq<(Seq<char>, Seq<char>)>)
    ensures
        forall|i: int| 0 <= i < records(s, rules).len() ==> #[trigger] records(s, rules)[i].len() == rules.len(),
    decreases s.len(),
{
    lemma_record_len(s, rules, 0);
    match record_from(s, rules, 0) {
        Some((vs, rest)) => if rest.len() < s.len() {
            lemma_records_len(rest, rules);
            let r = records(s, rules);
            assert forall|i: int| 0 <= i < r.len() implies #[trigger] r[i].len() == rules.len() by {
                if i > 0 {
                    assert(r[i] == records(rest, rules)[i - 1]);
                }
            }
        },
        None => {},
    }
}

/// The value of a string of decimal digits.
pub open spec fn digits_value(s: Seq<char>) -> nat
    decreases s.len(),
{
    if s.len() == 0 {
        0
    } else {
        digits_value(s.drop_last()) * 10 + ((s.last() as u32) - 48) as nat
    }
}

/// Whether every character is a decimal digit.
pub open spec fn all_digits(s: Seq<char>) -> bool {
    forall|i: int| 0 <= i < s.len() ==> '0' <= #[trigger] s[i] <= '9'
}

/// A `u16` written in decimal, with an optional leading `+` (the grammar std documents for
/// reading unsigned integers from text).
pub open spec fn parsed_u16(s: Seq<char>) -> Option<u16> {
    let d = digits_part(s);
    if d.len() > 0 && all_digits(d) && digits_value(d) <= u16::MAX {
        Some(digits_value(d) as u16)
    } else {
        None
    }
}

/// The text after an optional leading `+`.
pub open spec fn digits_part(s: Seq<char>) -> Seq<char> {
    if s.len() > 0 && s[0] == '+' {
        s.drop_first()
    } else {
        s
    }
}

/// A longer run of digits has at least the value of its prefix.
pub proof fn lemma_digits_grow(s: Seq<char>, k: int)
    requires
        0 <= k <= s.len(),
        all_digits(s),
    ensures
        digits_value(s.take(k)) <= digits_value(s),
    decreases s.len() - k,
{
    if k < s.len() {
        lemma_digits_grow(s, k + 1);
        assert(s.take(k + 1).drop_last() =~= s.take(k));
    } else {
        assert(s.take(k) =~= s);
    }
}

/// The decimal rendering of a number is made of digits, and they have its value.
proof fn lemma_decimal_digits(n: nat)
    ensures
        decimal(n).len() > 0,
        all_digits(decimal(n)),
        digits_value(decimal(n)) == n,
    decreases n,
{
    if n < 10 {
        let d = decimal(n);
        assert(d.drop_last() =~= Seq::<char>::empty());
        assert((crate::text::digit_char(n) as u32) == 48 + n);
        assert(d.last() == crate::text::digit_char(n));
        assert(digits_value(d) == digits_value(d.drop_last()) * 10 + n);
    } else {
        lemma_decimal_digits(n / 10);
        let d = decimal(n);
        assert(d.drop_last() =~= decimal(n / 10));
        assert((crate::text::digit_char(n % 10) as u32) == 48 + n % 10);
        assert(d.last() == crate::text::digit_char(n % 10));
        assert((n / 10) * 10 + n % 10 == n) by (nonlinear_arith);
        assert(digits_value(d) == digits_value(decimal(n / 10)) * 10 + n % 10);
        assert forall|i: int| 0 <= i < d.len() implies '0' <= #[trigger] d[i] <= '9' by {
            if i < d.len() - 1 {
                assert(d[i] == decimal(n / 10)[i]);
            }
        }
    }
}

/// Reading back a `u16` written in decimal gives the number.
pub proof fn lemma_parse_u16_round_trip(n: u16)
    ensures
        parsed_u16(decimal(n as nat)) == Some(n),
{
    lemma_decimal_digits(n as nat);
    let d = decimal(n as nat);
    assert('0' <= d[0] <= '9');
    assert(digits_part(d) == d);
}

/// Reads a `u16` written in decimal, with an optional leading `+`.
pub fn parse_u16(text: &str) -> (r: Option<u16>)
    ensures
        r == parsed_u16(text@),
{
    let v = chars_of(text);
    let ghost s = text@;
    let start: usize = if v.len() > 0 && v[0] == '+' {
        1
    } else {
        0
    };
    let ghost d = s.skip(start as int);
    assert(start == 1 ==> d =~= s.drop_first());
    assert(start == 0 ==> d =~= s);
    assert(d == digits_part(s));
    if v.len() == start {
        return None;
    }
    let mut value: u32 = 0;
    let mut i: usize = start;
    while i < v.len()
        invariant
            s == text@,
            v@ == s,
            d == s.skip(start as int),
            d == digits_part(s),
            start <= i <= v@.len(),
            all_digits(d.take(i - start)),
            value == digits_value(d.take(i - start)),
            value <= u16::MAX,
        decreases v@.len() - i,
    {
        let c = v[i];
        let ghost pre = d.take(i + 1 - start);
        assert(pre.drop_last() =~= d.take(i - start));
        assert(pre.last() == c);
        if c < '0' || c > '9' {
            assert(!all_digits(d)) by {
                assert(d[i - start] == c);
            }
            assert(parsed_u16(s) is None);
            return None;
        }
        let digit: u32 = (c as u32) - 48;
        let next: u32 = value * 10 + digit;
        assert(all_digits(pre)) by {
            assert forall|j: int| 0 <= j < pre.len() implies '0' <= #[trigger] pre[j] <= '9' by {
                if j < pre.len() - 1 {
                    assert(pre[j] == d.take(i - start)[j]);
                }
            }
        }
        if next > 65535 {
            proof {
                if all_digits(d) {
                    lemma_digits_grow(d, i + 1 - start);
                    assert(digits_value(pre) == next);
                }
            }
            assert(parsed_u16(s) is None);
            return None;
        }
        value = next;
        i = i + 1;
    }
    assert(d.take(i - start) =~= d);
    Some(value as u16)
}

/// A map result as plain text.
pub struct MapSearchResultView {
    pub id: u16,
    pub title: Seq<char>,
    pub author: Seq<char>,
    pub description: Seq<char>,
    pub image_url: Seq<char>,
}

/// The model of a map result.
pub open spec fn result_view(m: MapSearchResult) -> MapSearchResultView {
    MapSearchResultView {
        id: m.id,
        title: m.title@,
        author: m.author@,
        description: m.description@,
        image_url: m.image_url@,
    }
}

/// The map result of a record (id, image, title, author, description): its id must read as
/// a `u16`, and only the description's first line is kept.
pub open spec fn result_of(fields: Seq<Seq<char>>) -> Option<MapSearchResultView> {
    match parsed_u16(fields[0]) {
        Some(id) => Some(
            MapSearchResultView {
                id,
                title: fields[2],
                author: fields[3],
                description: first_field(fields[4], '\n'),
                image_url: fields[1],
            },
        ),
        None => None,
    }
}

/// The map results of the records, in order; records whose id does not read are dropped.
pub open spec fn results_of(recs: Seq<Seq<Seq<char>>>) -> Seq<MapSearchResultView>
    decreases recs.len(),
{
    if recs.len() == 0 {
        seq![]
    } else {
        let rest = results_of(recs.drop_last());
        match result_of(recs.last()) {
            Some(m) => rest.push(m),
            None => rest,
        }
    }
}

/// The marker pairs of the search page: map id, image, title, author, description.
pub open spec fn page_rules() -> Seq<(Seq<char>, Seq<char>)> {
    seq![
        ("<a href=\"/maps/"@, "\""@),
        ("olute;height:100%;width:100%;left:0;top:0;right:0;bottom:0;color:transparent\" src=\""@, "\""@),
        ("<h2 class=\"mb-3 line-clamp-2 text-lg font-semibold text-gray-900 transition group-hover:text-blue-600\">"@, "</h2>"@),
        ("<span class=\"truncate text-sm font-medium\" title=\""@, "\""@),
        ("<p class=\"mb-3 line-clamp-3 text-sm leading-relaxed text-gray-600\">"@, "</p>"@),
    ]
}

/// Reads the maps of a search page.
pub fn parse_bakkesplugins_response(response: &str) -> (r: Vec<MapSearchResult>)
    ensures
        r@.map_values(|m: MapSearchResult| result_view(m)) == results_of(records(response@, page_rules())),
{
    let rules: Vec<(&str, &str)> = vec![
        ("<a href=\"/maps/", "\""),
        ("olute;height:100%;width:100%;left:0;top:0;right:0;bottom:0;color:transparent\" src=\"", "\""),
        ("<h2 class=\"mb-3 line-clamp-2 text-lg font-semibold text-gray-900 transition group-hover:text-blue-600\">", "</h2>"),
        ("<span class=\"truncate text-sm font-medium\" title=\"", "\""),
        ("<p class=\"mb-3 line-clamp-3 text-sm leading-relaxed text-gray-600\">", "</p>"),
    ];
    proof {
        reveal_strlit("\"");
        reveal_strlit("</h2>");
        reveal_strlit("</p>");
        assert(rules_view(rules@) =~= page_rules());
    }
    let recs = search_parse(response, &rules);
    let ghost all = records(response@, page_rules());
    proof {
        lemma_records_len(response@, page_rules());
    }
    let mut out: Vec<MapSearchResult> = Vec::new();
    let mut i: usize = 0;
    while i < recs.len()
        invariant
            i <= recs@.len(),
            records_view(recs@) == all,
            forall|j: int| 0 <= j < all.len() ==> #[trigger] all[j].len() == 5,
            out@.map_values(|m: MapSearchResult| result_view(m)) == results_of(all.take(i as int)),
        decreases recs@.len() - i,
    {
        let rec = &recs[i];
        let ghost fv = rec@.map_values(|x: &str| x@);
        assert(all[i as int] == fv);
        assert(fv.len() == 5);
        assert(all.take(i + 1).drop_last() =~= all.take(i as int));
        assert(all.take(i + 1).last() == fv);
        match parse_u16(rec[0]) {
            Some(id) => {
                let dv = chars_of(rec[4]);
                let (end, _) = split_at_char(&dv, 0, '\n');
                assert(dv@.skip(0) =~= dv@);
                let description = string_of(&dv, 0, end);
                let ghost before = out@.map_values(|m: MapSearchResult| result_view(m));
                let m = MapSearchResult {
                    id,
                    title: rec[2].to_owned(),
                    author: rec[3].to_owned(),
                    description,
                    image_url: rec[1].to_owned(),
                };
                out.push(m);
                assert(out@.map_values(|m: MapSearchResult| result_view(m)) =~= before.push(
                    result_of(fv)->0,
                ));
            },
            None => {},
        }
        i = i + 1;
    }
    assert(all.take(i as int) =~= all);
    out
}


/// The address of the map search for a text.
pub open spec fn search_url_text(text: Seq<char>) -> Seq<char> {
    "https://bakkesplugins.com/maps?search="@ + percent_encode(encode_utf8(text))
}

/// The map downloader panel: the search text, the results (`None` while a search runs) and
/// the map being downloaded.
pub struct MapDownloaderWidget {
    pub search_text: String,
    pub results: Option<Vec<MapSearchResult>>,
    pub currently_downloading: Option<MapSearchResult>,
}

impl MapDownloaderWidget {
    /// An empty search with no results.
    pub fn new() -> (r: Self)
        ensures
            r.search_text@.len() == 0,
            r.results matches Some(v) && v@.len() == 0,
            r.currently_downloading is None,
    {
        MapDownloaderWidget { search_text: String::new(), results: Some(Vec::new()), currently_downloading: None }
    }

    /// Starts a search: the results are pending until the page arrives. Gives the address
    /// of the search page.
    pub fn search(&mut self) -> (r: String)
        ensures
            final(self).results is None,
            final(self).search_text@ == old(self).search_text@,
            r@ == search_url_text(old(self).search_text@),
    {
        self.results = None;
        let mut url = "https://bakkesplugins.com/maps?search=".to_owned();
        let encoded = url_encode(self.search_text.as_str());
        push_str(&mut url, encoded.as_str());
        url
    }

    /// The search page arrived: its maps become the results.
    pub fn finish_search(&mut self, page: &str)
        ensures
            final(self).results matches Some(v) && v@.map_values(|m: MapSearchResult| result_view(m))
                == results_of(records(page@, page_rules())),
            final(self).search_text@ == old(self).search_text@,
    {
        self.results = Some(parse_bakkesplugins_response(page));
    }

    /// Clears the results.
    pub fn hide_results(&mut self)
        ensures
            final(self).results matches Some(v) && v@.len() == 0,
            final(self).search_text@ == old(self).search_text@,
    {
        self.results = Some(Vec::new());
    }

    /// Whether a download can start: none is running.
    pub fn can_download(&self) -> (r: bool)
        ensures
            r == self.currently_downloading is None,
    {
        self.currently_downloading.is_none()
    }
}

/// A map card: the title, author, description and picture of a map, the card's buttons and
/// whether it is highlighted.
pub struct MapCardWidget<'a, ButtonsWidget> {
    pub title: &'a str,
    pub author: Option<&'a str>,
    pub description: Option<&'a str>,
    pub image_url: Option<&'a str>,
    pub buttons: ButtonsWidget,
    pub highlight: bool,
}

impl<'a, ButtonsWidget> MapCardWidget<'a, ButtonsWidget> {
    pub fn new(
        title: &'a str,
        author: Option<&'a str>,
        description: Option<&'a str>,
        image_url: Option<&'a str>,
        buttons: ButtonsWidget,
        highlight: bool,
    ) -> (r: Self)
        ensures
            r.title == title,
            r.author == author,
            r.description == description,
            r.image_url == image_url,
            r.buttons == buttons,
            r.highlight == highlight,
    {
        MapCardWidget { title, author, description, image_url, buttons, highlight }
    }
}

} // verus!
