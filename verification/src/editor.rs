//! The section editor: pure line-level transforms that append a named
//! `[name]` section to a document or remove one, leaving everything else
//! exactly as it was.

use vstd::prelude::*;

use crate::text::{
    concat2, concat3, is_space, render_spec, starts_with, str_eq, str_has_prefix, trim_of,
    trim_spec, trim_start_spec, lemma_trim_noop,
};
use crate::types::{EditError, Provider, ProviderV};

verus! {

/// The exact header line of the section named `name`.
pub open spec fn header_of(name: Seq<char>) -> Seq<char> {
    "["@ + name + "]"@
}

/// The conventional comment line paired with the section named `name`.
pub open spec fn comment_of(name: Seq<char>) -> Seq<char> {
    "; "@ + name + " service"@
}

/// A line whose first non-blank character is the comment marker.
pub open spec fn line_is_comment(l: Seq<char>) -> bool {
    trim_start_spec(l).len() > 0 && trim_start_spec(l)[0] == ';'
}

/// A line that, trimmed, is bracketed like a section header.
pub open spec fn line_is_header_shaped(l: Seq<char>) -> bool {
    trim_spec(l).len() > 0 && trim_spec(l)[0] == '[' && trim_spec(l).last() == ']'
}

/// Some line of `doc` equals `l` exactly.
pub open spec fn has_exact_line(doc: Seq<Seq<char>>, l: Seq<char>) -> bool {
    exists|i: int| 0 <= i < doc.len() && doc[i] == l
}

/// Some line of `doc`, trimmed, is the header of the section named `name`.
pub open spec fn has_section(doc: Seq<Seq<char>>, name: Seq<char>) -> bool {
    exists|i: int| 0 <= i < doc.len() && trim_spec(doc[i]) == header_of(name)
}

/// The first line of `doc` whose trimmed form starts with `p`, trimmed;
/// `None` if there is no such line.
pub open spec fn first_trimmed_with_prefix(doc: Seq<Seq<char>>, p: Seq<char>) -> Option<Seq<char>>
    decreases doc.len(),
{
    if doc.len() == 0 {
        None::<Seq<char>>
    } else if starts_with(trim_spec(doc[0]), p) {
        Some(trim_spec(doc[0]))
    } else {
        first_trimmed_with_prefix(doc.drop_first(), p)
    }
}

/// Zero or one lines, from an optional line.
pub open spec fn opt_lines(o: Option<Seq<char>>) -> Seq<Seq<char>> {
    match o {
        Some(l) => seq![l],
        None => Seq::<Seq<char>>::empty(),
    }
}

/// The block of lines that appending the provider `p` to `doc` emits: its
/// comment and header, `client = yes` for a client, its accept and connect
/// directives, then whichever of the document's global `cert =`, `CAfile =`
/// and `verify =` directives exist, in that fixed order.
pub open spec fn provider_block(doc: Seq<Seq<char>>, p: ProviderV) -> Seq<Seq<char>> {
    seq![comment_of(p.name), header_of(p.name)] + (if p.is_client {
        seq!["client = yes"@]
    } else {
        Seq::<Seq<char>>::empty()
    }) + seq!["accept = "@ + p.accept_port] + seq![
        "connect = "@ + p.connect_host + ":"@ + p.connect_port,
    ] + opt_lines(first_trimmed_with_prefix(doc, "cert ="@)) + opt_lines(
        first_trimmed_with_prefix(doc, "CAfile ="@),
    ) + opt_lines(first_trimmed_with_prefix(doc, "verify ="@))
}

/// A successful append: the document, one separating blank line, then the
/// provider's block.
pub open spec fn append_result_spec(doc: Seq<Seq<char>>, p: ProviderV) -> Seq<Seq<char>> {
    doc + seq![Seq::<char>::empty()] + provider_block(doc, p)
}

proof fn lemma_first_prefix_skip(doc: Seq<Seq<char>>, p: Seq<char>, i: int)
    requires
        0 <= i <= doc.len(),
        forall|j: int| 0 <= j < i ==> !starts_with(trim_spec(doc[j]), p),
    ensures
        first_trimmed_with_prefix(doc, p) == first_trimmed_with_prefix(doc.skip(i), p),
    decreases i,
{
    if i == 0 {
        assert(doc.skip(0) =~= doc);
    } else {
        assert(!starts_with(trim_spec(doc[0]), p));
        assert(doc.drop_first() =~= doc.skip(1));
        lemma_first_prefix_skip(doc.skip(1), p, i - 1);
        assert(doc.skip(1).skip(i - 1) =~= doc.skip(i));
    }
}

/// Builds the exact header line `[name]`.
pub fn build_header(name: &str) -> (r: String)
    ensures
        r@ == header_of(name@),
{
    concat3("[", name, "]")
}

/// Builds the conventional comment line `; name service`.
pub fn build_comment(name: &str) -> (r: String)
    ensures
        r@ == comment_of(name@),
{
    concat3("; ", name, " service")
}

/// Whether the first non-blank character of `s` is the comment marker.
pub fn is_comment_line(s: &str) -> (r: bool)
    ensures
        r == line_is_comment(s@),
{
    let n = s.unicode_len();
    let mut a: usize = 0;
    while a < n && is_space(s.get_char(a))
        invariant
            0 <= a <= n,
            n == s@.len(),
            forall|j: int| 0 <= j < a ==> crate::text::is_space_char(s@[j]),
        decreases n - a,
    {
        a = a + 1;
    }
    proof {
        crate::text::lemma_trim_start_subrange(s@, a as int);
    }
    if a == n {
        false
    } else {
        s.get_char(a) == ';'
    }
}

/// The first line of `doc` whose trimmed form starts with `p`, trimmed.
fn find_first_trimmed_with_prefix(doc: &Vec<String>, p: &str) -> (r: Option<String>)
    ensures
        match r {
            Some(l) => first_trimmed_with_prefix(doc.deep_view(), p@) == Some(l@),
            None => first_trimmed_with_prefix(doc.deep_view(), p@) is None,
        },
{
    let ghost dv = doc.deep_view();
    let mut i: usize = 0;
    while i < doc.len()
        invariant
            0 <= i <= doc@.len(),
            dv == doc.deep_view(),
            dv.len() == doc@.len(),
            forall|j: int| 0 <= j < i ==> !starts_with(trim_spec(dv[j]), p@),
        decreases doc@.len() - i,
    {
        let t = trim_of(doc[i].as_str());
        if str_has_prefix(t.as_str(), p) {
            proof {
                lemma_first_prefix_skip(dv, p@, i as int);
                assert(dv.skip(i as int)[0] == dv[i as int]);
            }
            return Some(t);
        }
        i = i + 1;
    }
    proof {
        lemma_first_prefix_skip(dv, p@, dv.len() as int);
        assert(dv.skip(dv.len() as int).len() == 0);
    }
    None
}

/// Appends a new `[name]` section for `provider` to `doc`.
///
/// Fails with `DuplicateSection`, and only then, when some line of `doc` is
/// exactly the header `[name]`. On success the result is the document, one
/// separating blank line, and the provider's block, with the document's
/// global `cert =` / `CAfile =` / `verify =` directives inherited into the
/// block.
pub fn append_section(doc: &Vec<String>, provider: &Provider) -> (r: Result<Vec<String>, EditError>)
    ensures
        has_exact_line(doc.deep_view(), header_of(provider@.name)) <==> r === Err(
            EditError::DuplicateSection,
        ),
        !has_exact_line(doc.deep_view(), header_of(provider@.name)) ==> r is Ok
            && r->Ok_0.deep_view() == append_result_spec(doc.deep_view(), provider@),
{
    let ghost dv = doc.deep_view();
    let header = build_header(provider.name.as_str());
    let mut i: usize = 0;
    while i < doc.len()
        invariant
            0 <= i <= doc@.len(),
            dv == doc.deep_view(),
            dv.len() == doc@.len(),
            header@ == header_of(provider@.name),
            forall|j: int| 0 <= j < i ==> dv[j] != header_of(provider@.name),
        decreases doc@.len() - i,
    {
        if str_eq(doc[i].as_str(), header.as_str()) {
            proof {
                assert(dv[i as int] == header_of(provider@.name));
            }
            return Err(EditError::DuplicateSection);
        }
        i = i + 1;
    }
    assert(!has_exact_line(dv, header_of(provider@.name)));

    let mut out: Vec<String> = Vec::new();
    let mut j: usize = 0;
    while j < doc.len()
        invariant
            0 <= j <= doc@.len(),
            dv == doc.deep_view(),
            dv.len() == doc@.len(),
            out.deep_view() == dv.take(j as int),
        decreases doc@.len() - j,
    {
        let ghost prev = out.deep_view();
        out.push(doc[j].clone());
        proof {
            assert(out.deep_view() =~= prev.push(dv[j as int]));
            assert(prev.push(dv[j as int]) =~= dv.take(j + 1));
        }
        j = j + 1;
    }
    proof {
        assert(dv.take(dv.len() as int) =~= dv);
    }

    out.push(String::new());
    let ghost acc0 = dv + seq![Seq::<char>::empty()];
    proof {
        assert(out.deep_view() =~= acc0);
    }
    out.push(build_comment(provider.name.as_str()));
    out.push(header);
    let ghost acc1 = acc0 + seq![comment_of(provider@.name), header_of(provider@.name)];
    proof {
        assert(out.deep_view() =~= acc1);
    }
    if provider.is_client {
        out.push("client = yes".to_owned());
    }
    let ghost acc2 = acc1 + (if provider@.is_client {
        seq!["client = yes"@]
    } else {
        Seq::<Seq<char>>::empty()
    });
    proof {
        assert(out.deep_view() =~= acc2);
    }
    out.push(concat2("accept = ", provider.accept_port.as_str()));
    let connect_head = concat3("connect = ", provider.connect_host.as_str(), ":");
    out.push(concat2(connect_head.as_str(), provider.connect_port.as_str()));
    let ghost acc3 = acc2 + seq!["accept = "@ + provider@.accept_port] + seq![
        "connect = "@ + provider@.connect_host + ":"@ + provider@.connect_port,
    ];
    proof {
        assert(out.deep_view() =~= acc3);
    }
    match find_first_trimmed_with_prefix(doc, "cert =") {
        Some(l) => out.push(l),
        None => {},
    }
    let ghost acc4 = acc3 + opt_lines(first_trimmed_with_prefix(dv, "cert ="@));
    proof {
        assert(out.deep_view() =~= acc4);
    }
    match find_first_trimmed_with_prefix(doc, "CAfile =") {
        Some(l) => out.push(l),
        None => {},
    }
    let ghost acc5 = acc4 + opt_lines(first_trimmed_with_prefix(dv, "CAfile ="@));
    proof {
        assert(out.deep_view() =~= acc5);
    }
    match find_first_trimmed_with_prefix(doc, "verify =") {
        Some(l) => out.push(l),
        None => {},
    }
    proof {
        assert(out.deep_view() =~= acc5 + opt_lines(first_trimmed_with_prefix(dv, "verify ="@)));
        assert(out.deep_view() =~= append_result_spec(dv, provider@));
    }
    Ok(out)
}

/// One step short of the removal scan: walking `lines` from `i` with the
/// lines retained so far in `acc`. Outside a skipping span, comment lines
/// and ordinary lines are retained; at the target header the scan drops the
/// conventional comment just retained, if it is there, and starts skipping.
/// While skipping, lines are dropped up to the next header-shaped line,
/// which ends the span and is then processed normally; `pending` holds a
/// comment line directly preceding that header, which is retained with it —
/// comments deeper inside the skipped body stay dropped.
pub open spec fn remove_scan(
    lines: Seq<Seq<char>>,
    i: int,
    acc: Seq<Seq<char>>,
    skipping: bool,
    pending: Option<Seq<char>>,
    hdr: Seq<char>,
    cmt: Seq<char>,
) -> Seq<Seq<char>>
    decreases lines.len() - i, (if skipping {
        1int
    } else {
        0int
    }),
{
    if i < 0 || i >= lines.len() {
        acc
    } else {
        let l = lines[i];
        if line_is_comment(l) {
            if !skipping {
                remove_scan(lines, i + 1, acc.push(l), false, None::<Seq<char>>, hdr, cmt)
            } else {
                remove_scan(lines, i + 1, acc, true, Some(l), hdr, cmt)
            }
        } else if !skipping && trim_spec(l) == hdr {
            let acc2 = if acc.len() > 0 && trim_spec(acc.last()) == cmt {
                acc.drop_last()
            } else {
                acc
            };
            remove_scan(lines, i + 1, acc2, true, None::<Seq<char>>, hdr, cmt)
        } else if skipping {
            if line_is_header_shaped(l) {
                let acc2 = match pending {
                    Some(c) => acc.push(c),
                    None => acc,
                };
                remove_scan(lines, i, acc2, false, None::<Seq<char>>, hdr, cmt)
            } else {
                remove_scan(lines, i + 1, acc, true, None::<Seq<char>>, hdr, cmt)
            }
        } else {
            remove_scan(lines, i + 1, acc.push(l), false, None::<Seq<char>>, hdr, cmt)
        }
    }
}

/// The lines left after removing the section named `name` from `doc`.
pub open spec fn remove_result_spec(doc: Seq<Seq<char>>, name: Seq<char>) -> Seq<Seq<char>> {
    remove_scan(
        doc,
        0,
        Seq::<Seq<char>>::empty(),
        false,
        None::<Seq<char>>,
        header_of(name),
        comment_of(name),
    )
}

/// Whether some line of `doc`, trimmed, is the header of the section named
/// `name`.
pub fn contains_section(doc: &Vec<String>, name: &str) -> (r: bool)
    ensures
        r == has_section(doc.deep_view(), name@),
{
    let ghost dv = doc.deep_view();
    let header = build_header(name);
    let mut i: usize = 0;
    while i < doc.len()
        invariant
            0 <= i <= doc@.len(),
            dv == doc.deep_view(),
            dv.len() == doc@.len(),
            header@ == header_of(name@),
            forall|j: int| 0 <= j < i ==> trim_spec(dv[j]) != header_of(name@),
        decreases doc@.len() - i,
    {
        let t = trim_of(doc[i].as_str());
        if str_eq(t.as_str(), header.as_str()) {
            proof {
                assert(trim_spec(dv[i as int]) == header_of(name@));
            }
            return true;
        }
        i = i + 1;
    }
    false
}

/// Removes the section named `name` from `doc`, together with its
/// conventional comment line directly above it.
///
/// A blank or whitespace-only name is rejected as `InvalidArgument` before
/// anything else. Otherwise it fails with `SectionNotFound`, and only then,
/// when no line of `doc`, trimmed, is the header `[name]`. On success the
/// result is exactly the removal scan's retained lines: the section's body
/// up to, but not including, the next header-shaped line is dropped,
/// comments deeper inside the body with it, and everything else is kept
/// verbatim.
pub fn remove_section(doc: &Vec<String>, name: &str) -> (r: Result<Vec<String>, EditError>)
    ensures
        trim_spec(name@).len() == 0 ==> r === Err(EditError::InvalidArgument),
        trim_spec(name@).len() > 0 ==> (has_section(doc.deep_view(), name@) <==> !(r === Err(
            EditError::SectionNotFound,
        ))),
        trim_spec(name@).len() > 0 && has_section(doc.deep_view(), name@) ==> r is Ok
            && r->Ok_0.deep_view() == remove_result_spec(doc.deep_view(), name@),
{
    let ghost dv = doc.deep_view();
    let trimmed_name = trim_of(name);
    if trimmed_name.as_str().is_empty() {
        return Err(EditError::InvalidArgument);
    }
    if !contains_section(doc, name) {
        return Err(EditError::SectionNotFound);
    }
    let header = build_header(name);
    let cmt = build_comment(name);
    let mut acc: Vec<String> = Vec::new();
    let mut skipping = false;
    let mut pending: Option<String> = None;
    let mut i: usize = 0;
    proof {
        assert(acc.deep_view() =~= Seq::<Seq<char>>::empty());
    }
    while i < doc.len()
        invariant
            0 <= i <= doc@.len(),
            dv == doc.deep_view(),
            dv.len() == doc@.len(),
            header@ == header_of(name@),
            cmt@ == comment_of(name@),
            !skipping ==> pending_view(pending) is None,
            remove_result_spec(dv, name@) == remove_scan(
                dv,
                i as int,
                acc.deep_view(),
                skipping,
                pending_view(pending),
                header_of(name@),
                comment_of(name@),
            ),
        decreases doc@.len() - i, (if skipping {
            1int
        } else {
            0int
        }),
    {
        let ghost old_i = i as int;
        let ghost old_skipping = skipping;
        let ghost old_pending = pending_view(pending);
        let ghost acc0 = acc.deep_view();
        let line_is_cmt = is_comment_line(doc[i].as_str());
        if line_is_cmt {
            if !skipping {
                let l = doc[i].clone();
                acc.push(l);
                proof {
                    assert(acc.deep_view() =~= acc0.push(dv[old_i]));
                }
            } else {
                pending = Some(doc[i].clone());
            }
            i = i + 1;
        } else {
            let t = trim_of(doc[i].as_str());
            if !skipping && str_eq(t.as_str(), header.as_str()) {
                if acc.len() > 0 {
                    let lt = trim_of(acc[acc.len() - 1].as_str());
                    if str_eq(lt.as_str(), cmt.as_str()) {
                        acc.pop();
                        proof {
                            assert(acc0.last() == acc0[acc0.len() - 1]);
                            assert(acc.deep_view() =~= acc0.drop_last());
                        }
                    }
                }
                skipping = true;
                pending = None;
                i = i + 1;
            } else if skipping {
                let tn = t.as_str().unicode_len();
                let hdr_shaped = tn > 0 && t.as_str().get_char(0) == '[' && t.as_str().get_char(
                    tn - 1,
                ) == ']';
                proof {
                    assert(hdr_shaped == line_is_header_shaped(dv[old_i]));
                }
                if hdr_shaped {
                    match pending {
                        Some(c) => {
                            acc.push(c);
                            proof {
                                assert(acc.deep_view() =~= acc0.push(old_pending->Some_0));
                            }
                        },
                        None => {},
                    }
                    skipping = false;
                    pending = None;
                } else {
                    pending = None;
                    i = i + 1;
                }
            } else {
                let l = doc[i].clone();
                acc.push(l);
                proof {
                    assert(acc.deep_view() =~= acc0.push(dv[old_i]));
                }
                i = i + 1;
            }
        }
        proof {
            assert(remove_scan(
                dv,
                old_i,
                acc0,
                old_skipping,
                old_pending,
                header_of(name@),
                comment_of(name@),
            ) == remove_scan(
                dv,
                i as int,
                acc.deep_view(),
                skipping,
                pending_view(pending),
                header_of(name@),
                comment_of(name@),
            ));
        }
    }
    Ok(acc)
}

/// The view of an optional pending comment line.
pub open spec fn pending_view(p: Option<String>) -> Option<Seq<char>> {
    match p {
        Some(s) => Some(s@),
        None => None::<Seq<char>>,
    }
}

proof fn lemma_first_prefix_starts(doc: Seq<Seq<char>>, p: Seq<char>)
    ensures
        first_trimmed_with_prefix(doc, p) is Some ==> starts_with(
            first_trimmed_with_prefix(doc, p)->Some_0,
            p,
        ),
    decreases doc.len(),
{
    if doc.len() > 0 && !starts_with(trim_spec(doc[0]), p) {
        lemma_first_prefix_starts(doc.drop_first(), p);
    }
}

proof fn lemma_scan_keep_segment(
    lines: Seq<Seq<char>>,
    i: int,
    m: int,
    acc: Seq<Seq<char>>,
    hdr: Seq<char>,
    cmt: Seq<char>,
)
    requires
        0 <= i <= m <= lines.len(),
        forall|j: int| i <= j < m ==> trim_spec(lines[j]) != hdr,
    ensures
        remove_scan(lines, i, acc, false, None::<Seq<char>>, hdr, cmt) == remove_scan(
            lines,
            m,
            acc + lines.subrange(i, m),
            false,
            None::<Seq<char>>,
            hdr,
            cmt,
        ),
    decreases m - i,
{
    if i == m {
        assert(acc + lines.subrange(i, i) =~= acc);
    } else {
        let l = lines[i];
        assert(trim_spec(l) != hdr);
        lemma_scan_keep_segment(lines, i + 1, m, acc.push(l), hdr, cmt);
        assert(acc.push(l) + lines.subrange(i + 1, m) =~= acc + lines.subrange(i, m));
    }
}

proof fn lemma_scan_skip_to_end(
    lines: Seq<Seq<char>>,
    i: int,
    acc: Seq<Seq<char>>,
    pending: Option<Seq<char>>,
    hdr: Seq<char>,
    cmt: Seq<char>,
)
    requires
        0 <= i <= lines.len(),
        forall|j: int|
            i <= j < lines.len() ==> line_is_comment(lines[j]) || !line_is_header_shaped(lines[j]),
    ensures
        remove_scan(lines, i, acc, true, pending, hdr, cmt) == acc,
    decreases lines.len() - i,
{
    if i < lines.len() {
        let l = lines[i];
        if line_is_comment(l) {
            lemma_scan_skip_to_end(lines, i + 1, acc, Some(l), hdr, cmt);
        } else {
            lemma_scan_skip_to_end(lines, i + 1, acc, None::<Seq<char>>, hdr, cmt);
        }
    }
}

/// The round trip: appending the section for `p` to a document no line of
/// which trims to the header `[name]`, and then removing that section again,
/// retains exactly the document plus the one separating blank line; where
/// the document's last line is nonempty this renders back into the same
/// text.
pub proof fn lemma_append_remove_round_trip(doc: Seq<Seq<char>>, p: ProviderV)
    requires
        forall|j: int| 0 <= j < doc.len() ==> trim_spec(doc[j]) != header_of(p.name),
    ensures
        !has_exact_line(doc, header_of(p.name)),
        has_section(append_result_spec(doc, p), p.name),
        remove_result_spec(append_result_spec(doc, p), p.name) == doc.push(Seq::<char>::empty()),
        (doc.len() > 0 && doc.last().len() > 0 && doc.last().last() != '\n') ==> render_spec(
            remove_result_spec(append_result_spec(doc, p), p.name),
        ) == render_spec(doc),
{
    reveal_strlit("[");
    reveal_strlit("]");
    reveal_strlit("; ");
    reveal_strlit(" service");
    reveal_strlit("client = yes");
    reveal_strlit("accept = ");
    reveal_strlit("connect = ");
    reveal_strlit(":");
    reveal_strlit("cert =");
    reveal_strlit("CAfile =");
    reveal_strlit("verify =");

    let hdr = header_of(p.name);
    let cmt = comment_of(p.name);
    let doc2 = append_result_spec(doc, p);
    let dl = doc.len() as int;
    let blank = Seq::<char>::empty();

    assert(hdr.len() >= 2);
    assert(hdr[0] == '[');
    assert(hdr[hdr.len() - 1] == ']');
    lemma_trim_noop(hdr);
    assert forall|j: int| 0 <= j < doc.len() implies doc[j] != hdr by {
        if doc[j] == hdr {
            assert(trim_spec(doc[j]) == hdr);
        }
    }
    assert(!has_exact_line(doc, hdr));

    assert(cmt[0] == ';');
    assert(cmt[cmt.len() - 1] == 'e');
    lemma_trim_noop(cmt);

    // The original lines are retained unchanged.
    assert(forall|j: int| 0 <= j < dl ==> doc2[j] == doc[j]);
    lemma_scan_keep_segment(doc2, 0, dl, Seq::<Seq<char>>::empty(), hdr, cmt);
    assert(Seq::<Seq<char>>::empty() + doc2.subrange(0, dl) =~= doc);

    // The separating blank line is retained.
    assert(doc2[dl] == blank);
    assert(trim_spec(blank) == blank);
    assert(remove_scan(doc2, dl, doc, false, None::<Seq<char>>, hdr, cmt) == remove_scan(
        doc2,
        dl + 1,
        doc.push(blank),
        false,
        None::<Seq<char>>,
        hdr,
        cmt,
    ));

    // The conventional comment is retained, for now.
    assert(doc2[dl + 1] == cmt);
    assert(trim_start_spec(cmt) == cmt);
    assert(line_is_comment(cmt));
    let acc_c = doc.push(blank).push(cmt);
    assert(remove_scan(doc2, dl + 1, doc.push(blank), false, None::<Seq<char>>, hdr, cmt)
        == remove_scan(doc2, dl + 2, acc_c, false, None::<Seq<char>>, hdr, cmt));

    // At the header, the comment is dropped again and skipping starts.
    assert(doc2[dl + 2] == hdr);
    assert(trim_start_spec(hdr) == hdr);
    assert(!line_is_comment(hdr));
    assert(acc_c.len() > 0 && trim_spec(acc_c.last()) == cmt);
    assert(acc_c.drop_last() =~= doc.push(blank));
    assert(remove_scan(doc2, dl + 2, acc_c, false, None::<Seq<char>>, hdr, cmt) == remove_scan(
        doc2,
        dl + 3,
        doc.push(blank),
        true,
        None::<Seq<char>>,
        hdr,
        cmt,
    ));

    // The rest of the block is skipped: each of its lines starts with a
    // letter, so none is header-shaped.
    let copt = if p.is_client {
        seq!["client = yes"@]
    } else {
        Seq::<Seq<char>>::empty()
    };
    let certo = opt_lines(first_trimmed_with_prefix(doc, "cert ="@));
    let cao = opt_lines(first_trimmed_with_prefix(doc, "CAfile ="@));
    let vo = opt_lines(first_trimmed_with_prefix(doc, "verify ="@));
    let al = "accept = "@ + p.accept_port;
    let cl = "connect = "@ + p.connect_host + ":"@ + p.connect_port;
    let tail = doc2.subrange(dl + 3, doc2.len() as int);
    assert(tail =~= copt + seq![al] + seq![cl] + certo + cao + vo);
    lemma_first_prefix_starts(doc, "cert ="@);
    lemma_first_prefix_starts(doc, "CAfile ="@);
    lemma_first_prefix_starts(doc, "verify ="@);
    assert forall|j: int| 0 <= j < tail.len() implies !line_is_header_shaped(tail[j]) by {
        let l = tail[j];
        let c0 = copt.len() as int;
        if j < c0 {
            assert(l == "client = yes"@);
            assert(l.len() > 0 && l[0] == 'c');
        } else if j == c0 {
            assert(l == al);
            assert(l[0] == ("accept = "@)[0]);
            assert(l.len() > 0 && l[0] == 'a');
        } else if j == c0 + 1 {
            assert(l == cl);
            assert(l[0] == ("connect = "@)[0]);
            assert(l.len() > 0 && l[0] == 'c');
        } else if j < c0 + 2 + certo.len() {
            assert(l == certo[0]);
            assert(starts_with(l, "cert ="@));
            assert(l[0] == l.subrange(0, 6)[0]);
            assert(l.len() > 0 && l[0] == 'c');
        } else if j < c0 + 2 + certo.len() + cao.len() {
            assert(l == cao[0]);
            assert(starts_with(l, "CAfile ="@));
            assert(l[0] == l.subrange(0, 8)[0]);
            assert(l.len() > 0 && l[0] == 'C');
        } else {
            assert(l == vo[0]);
            assert(starts_with(l, "verify ="@));
            assert(l[0] == l.subrange(0, 8)[0]);
            assert(l.len() > 0 && l[0] == 'v');
        }
        assert(!crate::text::is_space_char(l[0]));
        crate::text::lemma_trim_first_char(l);
        assert(trim_spec(l)[0] != '[');
    }
    assert forall|j: int|
        dl + 3 <= j < doc2.len() implies line_is_comment(doc2[j]) || !line_is_header_shaped(
        doc2[j],
    ) by {
        assert(doc2[j] == tail[j - (dl + 3)]);
    }
    lemma_scan_skip_to_end(doc2, dl + 3, doc.push(blank), None::<Seq<char>>, hdr, cmt);
    assert(remove_result_spec(doc2, p.name) == doc.push(blank));

    assert(trim_spec(doc2[dl + 2]) == hdr);
    assert(has_section(doc2, p.name));

    if doc.len() > 0 && doc.last().len() > 0 && doc.last().last() != '\n' {
        crate::text::lemma_render_push_empty(doc);
        assert(doc.push(blank) =~= doc.push(Seq::<char>::empty()));
    }
}

} // verus!
