//! The configuration generator: builds a complete document from the global
//! settings and an ordered list of providers, stamped with a generation
//! timestamp.

use vstd::prelude::*;

use crate::editor::{build_comment, build_header, comment_of, header_of};
use crate::text::concat2;
use crate::types::{GlobalSettings, GlobalSettingsV, Provider, ProviderV};

verus! {

/// The opening comment of every generated document.
pub open spec fn banner_line() -> Seq<char> {
    "; stunnel configuration"@
}

/// The provenance line holding the generation timestamp.
pub open spec fn timestamp_line(ts: Seq<char>) -> Seq<char> {
    "; timestamp: "@ + ts
}

/// The global directives of a generated document, ending in one blank line:
/// the foreground flag when set, a fixed debug verbosity, the pid path (with
/// its conventional default), and the optional TLS identity, where a
/// certificate authority implies the fixed verification level.
pub open spec fn global_lines(g: GlobalSettingsV) -> Seq<Seq<char>> {
    (if g.foreground {
        seq!["foreground = yes"@]
    } else {
        Seq::<Seq<char>>::empty()
    }) + seq!["debug = 7"@] + seq![
        "pid = "@ + (if g.pid_file.len() > 0 {
            g.pid_file
        } else {
            "/var/run/stunnel.pid"@
        }),
    ] + (if g.cert_path.len() > 0 {
        seq!["cert = "@ + g.cert_path]
    } else {
        Seq::<Seq<char>>::empty()
    }) + (if g.key_path.len() > 0 {
        seq!["key = "@ + g.key_path]
    } else {
        Seq::<Seq<char>>::empty()
    }) + (if g.ca_path.len() > 0 {
        seq!["CAfile = "@ + g.ca_path, "verify = 2"@]
    } else {
        Seq::<Seq<char>>::empty()
    }) + seq![Seq::<char>::empty()]
}

/// The section block a generated document holds for one provider, ending in
/// one blank line.
pub open spec fn generated_provider_lines(p: ProviderV) -> Seq<Seq<char>> {
    seq![comment_of(p.name), header_of(p.name)] + (if p.is_client {
        seq!["client = yes"@]
    } else {
        Seq::<Seq<char>>::empty()
    }) + seq![
        "accept = "@ + p.accept_port,
        "connect = "@ + p.connect_host + ":"@ + p.connect_port,
        Seq::<char>::empty(),
    ]
}

/// The section blocks of all providers, in input order.
pub open spec fn generated_providers(ps: Seq<ProviderV>) -> Seq<Seq<char>>
    decreases ps.len(),
{
    if ps.len() == 0 {
        Seq::<Seq<char>>::empty()
    } else {
        generated_providers(ps.drop_last()) + generated_provider_lines(ps.last())
    }
}

/// The whole document generated from `g`, `ps` and the timestamp `ts`.
pub open spec fn generate_spec(g: GlobalSettingsV, ps: Seq<ProviderV>, ts: Seq<char>) -> Seq<
    Seq<char>,
> {
    seq![banner_line(), timestamp_line(ts), Seq::<char>::empty()] + global_lines(g)
        + generated_providers(ps)
}

/// Generates the document for `settings` and `providers`, stamped `timestamp`.
pub fn generate_document(settings: &GlobalSettings, providers: &Vec<Provider>, timestamp: &str) -> (r:
    Vec<String>)
    ensures
        r.deep_view() == generate_spec(settings@, providers.deep_view(), timestamp@),
{
    let mut out: Vec<String> = Vec::new();
    out.push("; stunnel configuration".to_owned());
    out.push(concat2("; timestamp: ", timestamp));
    out.push(String::new());
    let ghost acc0 = seq![banner_line(), timestamp_line(timestamp@), Seq::<char>::empty()];
    proof {
        assert(out.deep_view() =~= acc0);
    }
    if settings.foreground {
        out.push("foreground = yes".to_owned());
    }
    out.push("debug = 7".to_owned());
    if !settings.pid_file.as_str().is_empty() {
        out.push(concat2("pid = ", settings.pid_file.as_str()));
    } else {
        out.push(concat2("pid = ", "/var/run/stunnel.pid"));
    }
    let ghost acc1 = acc0 + (if settings@.foreground {
        seq!["foreground = yes"@]
    } else {
        Seq::<Seq<char>>::empty()
    }) + seq!["debug = 7"@] + seq![
        "pid = "@ + (if settings@.pid_file.len() > 0 {
            settings@.pid_file
        } else {
            "/var/run/stunnel.pid"@
        }),
    ];
    proof {
        assert(out.deep_view() =~= acc1);
    }
    if !settings.cert_path.as_str().is_empty() {
        out.push(concat2("cert = ", settings.cert_path.as_str()));
    }
    if !settings.key_path.as_str().is_empty() {
        out.push(concat2("key = ", settings.key_path.as_str()));
    }
    if !settings.ca_path.as_str().is_empty() {
        out.push(concat2("CAfile = ", settings.ca_path.as_str()));
        out.push("verify = 2".to_owned());
    }
    out.push(String::new());
    let ghost head = acc1 + (if settings@.cert_path.len() > 0 {
        seq!["cert = "@ + settings@.cert_path]
    } else {
        Seq::<Seq<char>>::empty()
    }) + (if settings@.key_path.len() > 0 {
        seq!["key = "@ + settings@.key_path]
    } else {
        Seq::<Seq<char>>::empty()
    }) + (if settings@.ca_path.len() > 0 {
        seq!["CAfile = "@ + settings@.ca_path, "verify = 2"@]
    } else {
        Seq::<Seq<char>>::empty()
    }) + seq![Seq::<char>::empty()];
    proof {
        assert(out.deep_view() =~= head);
        assert(head =~= seq![banner_line(), timestamp_line(timestamp@), Seq::<char>::empty()]
            + global_lines(settings@));
    }

    let ghost pdv = providers.deep_view();
    let mut i: usize = 0;
    while i < providers.len()
        invariant
            0 <= i <= providers@.len(),
            pdv == providers.deep_view(),
            pdv.len() == providers@.len(),
            out.deep_view() == head + generated_providers(pdv.take(i as int)),
        decreases providers@.len() - i,
    {
        let ghost before = out.deep_view();
        let p = &providers[i];
        out.push(build_comment(p.name.as_str()));
        out.push(build_header(p.name.as_str()));
        if p.is_client {
            out.push("client = yes".to_owned());
        }
        out.push(concat2("accept = ", p.accept_port.as_str()));
        let connect_head = crate::text::concat3("connect = ", p.connect_host.as_str(), ":");
        out.push(concat2(connect_head.as_str(), p.connect_port.as_str()));
        out.push(String::new());
        proof {
            assert(pdv[i as int] == providers@[i as int]@);
            assert(out.deep_view() =~= before + generated_provider_lines(pdv[i as int]));
            assert(pdv.take(i + 1).drop_last() =~= pdv.take(i as int));
            assert(pdv.take(i + 1).last() == pdv[i as int]);
            assert(generated_providers(pdv.take(i + 1)) == generated_providers(pdv.take(i as int))
                + generated_provider_lines(pdv[i as int]));
            assert(out.deep_view() =~= head + generated_providers(pdv.take(i + 1)));
        }
        i = i + 1;
    }
    proof {
        assert(pdv.take(pdv.len() as int) =~= pdv);
    }
    out
}

/// Relies on chrono's `Utc::now().to_rfc3339()` for the generation
/// timestamp. The result depends on the clock, so nothing is promised of its
/// value.
#[verifier::external_body]
pub(crate) fn now_rfc3339() -> String {
    chrono::Utc::now().to_rfc3339()
}

/// Generates the document for `settings` and `providers`, stamped with the
/// present time.
pub fn generate_document_now(settings: &GlobalSettings, providers: &Vec<Provider>) -> (r: Vec<
    String,
>)
    ensures
        exists|ts: Seq<char>|
            r.deep_view() == generate_spec(settings@, providers.deep_view(), ts),
{
    let ts = now_rfc3339();
    let r = generate_document(settings, providers, ts.as_str());
    proof {
        assert(r.deep_view() == generate_spec(settings@, providers.deep_view(), ts@));
    }
    r
}

/// Generation is deterministic apart from the embedded timestamp: two
/// documents generated from the same settings and providers agree in length
/// and on every line but the timestamp line, which stands at index 1.
pub proof fn lemma_generate_deterministic(
    g: GlobalSettingsV,
    ps: Seq<ProviderV>,
    t1: Seq<char>,
    t2: Seq<char>,
)
    ensures
        generate_spec(g, ps, t1).len() == generate_spec(g, ps, t2).len(),
        forall|i: int|
            0 <= i < generate_spec(g, ps, t1).len() && i != 1 ==> generate_spec(g, ps, t1)[i]
                == generate_spec(g, ps, t2)[i],
        generate_spec(g, ps, t1)[1] == timestamp_line(t1),
{
}

} // verus!
