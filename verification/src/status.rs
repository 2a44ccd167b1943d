//! Status inspection: parsing the process's connection listing and building
//! the status report.

use vstd::prelude::*;

use crate::text::{is_space, is_space_char, split_lines, split_lines_spec, str_has_prefix};
use crate::types::{Connection, ConnectionV};

verus! {

/// The maximal runs of non-whitespace characters in `s`, the pending run
/// `cur` in front.
pub open spec fn split_ws_go(s: Seq<char>, cur: Seq<char>) -> Seq<Seq<char>>
    decreases s.len(),
{
    if s.len() == 0 {
        if cur.len() > 0 {
            seq![cur]
        } else {
            Seq::<Seq<char>>::empty()
        }
    } else if is_space_char(s[0]) {
        if cur.len() > 0 {
            seq![cur] + split_ws_go(s.drop_first(), Seq::<char>::empty())
        } else {
            split_ws_go(s.drop_first(), Seq::<char>::empty())
        }
    } else {
        split_ws_go(s.drop_first(), cur.push(s[0]))
    }
}

/// The whitespace-separated fields of `s`.
pub open spec fn split_ws_spec(s: Seq<char>) -> Seq<Seq<char>> {
    split_ws_go(s, Seq::<char>::empty())
}

/// Splits `s` into its whitespace-separated fields.
pub fn split_whitespace_of(s: &str) -> (r: Vec<String>)
    ensures
        r.deep_view() == split_ws_spec(s@),
{
    let n = s.unicode_len();
    let mut out: Vec<String> = Vec::new();
    let mut start: usize = 0;
    let mut i: usize = 0;
    proof {
        assert(s@.skip(0) =~= s@);
        assert(s@.subrange(0, 0) =~= Seq::<char>::empty());
        assert(out.deep_view() + split_ws_go(s@, Seq::<char>::empty()) =~= split_ws_go(
            s@,
            Seq::<char>::empty(),
        ));
    }
    while i < n
        invariant
            0 <= start <= i <= n,
            n == s@.len(),
            split_ws_spec(s@) == out.deep_view() + split_ws_go(
                s@.skip(i as int),
                s@.subrange(start as int, i as int),
            ),
        decreases n - i,
    {
        let ghost prev_dv = out.deep_view();
        let ghost cur = s@.subrange(start as int, i as int);
        let c = s.get_char(i);
        proof {
            assert(s@.skip(i as int)[0] == s@[i as int]);
            assert(s@.skip(i as int).drop_first() =~= s@.skip(i + 1));
        }
        if is_space(c) {
            if i > start {
                let piece = s.substring_char(start, i);
                out.push(piece.to_owned());
                proof {
                    assert(out.deep_view() =~= prev_dv.push(cur));
                    assert(prev_dv + (seq![cur] + split_ws_go(
                        s@.skip(i + 1),
                        Seq::<char>::empty(),
                    )) =~= out.deep_view() + split_ws_go(s@.skip(i + 1), Seq::<char>::empty()));
                }
            }
            proof {
                assert(s@.subrange(i + 1, i + 1) =~= Seq::<char>::empty());
            }
            start = i + 1;
        } else {
            proof {
                assert(cur.push(s@[i as int]) =~= s@.subrange(start as int, i + 1));
            }
        }
        i = i + 1;
    }
    if start < n {
        let ghost prev_dv = out.deep_view();
        let piece = s.substring_char(start, n);
        out.push(piece.to_owned());
        proof {
            assert(s@.skip(n as int) =~= Seq::<char>::empty());
            assert(out.deep_view() =~= prev_dv.push(s@.subrange(start as int, n as int)));
        }
    } else {
        proof {
            assert(s@.skip(n as int) =~= Seq::<char>::empty());
            assert(s@.subrange(start as int, n as int).len() == 0);
            assert(out.deep_view() + split_ws_go(
                s@.skip(n as int),
                s@.subrange(start as int, n as int),
            ) =~= out.deep_view());
        }
    }
    out
}

/// `p` occurs in `s` as a contiguous run.
pub open spec fn contains_seq(s: Seq<char>, p: Seq<char>) -> bool {
    exists|i: int| 0 <= i <= s.len() - p.len() && #[trigger] s.subrange(i, i + p.len()) == p
}

/// Whether `p` occurs in `s` as a substring.
pub fn contains_substr(s: &str, p: &str) -> (r: bool)
    ensures
        r == contains_seq(s@, p@),
{
    let n = s.unicode_len();
    let m = p.unicode_len();
    if m > n {
        return false;
    }
    if m == 0 {
        proof {
            assert(s@.subrange(0, 0 + p@.len() as int) =~= p@);
            assert(contains_seq(s@, p@));
        }
        return true;
    }
    let last = n - m;
    let mut i: usize = 0;
    while i <= last
        invariant
            0 <= i <= last + 1,
            last == n - m,
            1 <= m <= n,
            n == s@.len(),
            m == p@.len(),
            forall|j: int| 0 <= j < i ==> #[trigger] s@.subrange(j, j + p@.len()) != p@,
        decreases last + 1 - i,
    {
        let tail = s.substring_char(i, n);
        if str_has_prefix(tail, p) {
            proof {
                assert(tail@.subrange(0, m as int) =~= s@.subrange(i as int, i + m));
            }
            return true;
        }
        proof {
            assert(s@.subrange(i as int, i + m) =~= tail@.subrange(0, m as int));
        }
        i = i + 1;
    }
    false
}

/// The connection record a selected listing line yields: its fourth field is
/// the local address and its fifth the remote one.
pub open spec fn connection_of_line(l: Seq<char>) -> ConnectionV {
    ConnectionV {
        service_name: Seq::<char>::empty(),
        local_address: split_ws_spec(l)[3],
        remote_address: split_ws_spec(l)[4],
        bytes_sent: 0,
        bytes_received: 0,
    }
}

/// A listing line that names the tunnel process and has at least five
/// whitespace-separated fields.
pub open spec fn line_selected(l: Seq<char>) -> bool {
    contains_seq(l, "stunnel"@) && split_ws_spec(l).len() >= 5
}

/// The connections of the selected lines, in order.
pub open spec fn connections_spec(lines: Seq<Seq<char>>) -> Seq<ConnectionV>
    decreases lines.len(),
{
    if lines.len() == 0 {
        Seq::<ConnectionV>::empty()
    } else {
        connections_spec(lines.drop_last()) + (if line_selected(lines.last()) {
            seq![connection_of_line(lines.last())]
        } else {
            Seq::<ConnectionV>::empty()
        })
    }
}

/// Reads the lines of a TCP connection listing into connection records: one
/// for each line that names the tunnel process and has at least five
/// fields.
pub fn parse_connections(lines: &Vec<String>) -> (r: Vec<Connection>)
    ensures
        r.deep_view() == connections_spec(lines.deep_view()),
{
    let ghost dv = lines.deep_view();
    let mut out: Vec<Connection> = Vec::new();
    let mut i: usize = 0;
    proof {
        assert(dv.take(0) =~= Seq::<Seq<char>>::empty());
        assert(out.deep_view() =~= connections_spec(dv.take(0)));
    }
    while i < lines.len()
        invariant
            0 <= i <= lines@.len(),
            dv == lines.deep_view(),
            dv.len() == lines@.len(),
            out.deep_view() == connections_spec(dv.take(i as int)),
        decreases lines@.len() - i,
    {
        let ghost before = out.deep_view();
        if contains_substr(lines[i].as_str(), "stunnel") {
            let fields = split_whitespace_of(lines[i].as_str());
            if fields.len() >= 5 {
                let c = Connection {
                    service_name: String::new(),
                    local_address: fields[3].clone(),
                    remote_address: fields[4].clone(),
                    bytes_sent: 0,
                    bytes_received: 0,
                };
                out.push(c);
                proof {
                    assert(fields.deep_view()[3] == fields@[3]@);
                    assert(fields.deep_view()[4] == fields@[4]@);
                    assert(out.deep_view() =~= before.push(connection_of_line(dv[i as int])));
                }
            }
        }
        proof {
            assert(dv.take(i + 1).drop_last() =~= dv.take(i as int));
            assert(dv.take(i + 1).last() == dv[i as int]);
            assert(out.deep_view() =~= connections_spec(dv.take(i + 1)));
        }
        i = i + 1;
    }
    proof {
        assert(dv.take(dv.len() as int) =~= dv);
    }
    out
}

/// Reads a whole connection listing text into connection records.
pub fn parse_netstat_output(text: &str) -> (r: Vec<Connection>)
    ensures
        r.deep_view() == connections_spec(split_lines_spec(text@)),
{
    let lines = split_lines(text);
    parse_connections(&lines)
}

/// The status answered to an inspection request.
#[derive(Clone, Debug)]
pub struct StatusReport {
    pub is_running: bool,
    pub pid: i32,
    pub config_path: String,
    pub active_connections: Vec<Connection>,
}

/// Builds the status report: with a recovered pid, whether that process is
/// live and the connections found; with none, a not-running report with no
/// connections.
pub fn status_report(
    config_path: &String,
    pid: Option<i32>,
    running: bool,
    connections: Vec<Connection>,
) -> (r: StatusReport)
    ensures
        r.config_path@ == config_path@,
        pid is Some ==> r.pid == pid->Some_0 && r.is_running == running
            && r.active_connections@ == connections@,
        pid is None ==> r.pid == 0 && !r.is_running && r.active_connections@.len() == 0,
{
    match pid {
        Some(p) => StatusReport {
            is_running: running,
            pid: p,
            config_path: config_path.clone(),
            active_connections: connections,
        },
        None => StatusReport {
            is_running: false,
            pid: 0,
            config_path: config_path.clone(),
            active_connections: Vec::new(),
        },
    }
}

} // verus!
