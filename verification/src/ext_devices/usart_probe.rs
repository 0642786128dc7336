//! A line-capture probe: a write-only external device that taps a serial
//! line, accumulates the bytes written to it, and emits one observability
//! record per newline-terminated line.

use vstd::prelude::*;

use crate::ext_devices::ExtDevice;
use crate::system::System;

verus! {

/// The byte value that delimits one logical line of captured traffic.
pub const LINE_TERMINATOR: u8 = 0x0A;

/// `anyhow::Error`, the error side of the probe constructor's fallible
/// return type. It exists to allow future fallible setup; nothing in this
/// crate ever produces a value of it.
#[verifier::external_type_specification]
#[verifier::external_body]
pub struct ExAnyhowError(anyhow::Error);

/// The text that best-effort decoding yields for a byte sequence.
pub uninterp spec fn lossy_text_of(b: Seq<u8>) -> Seq<char>;

/// The text that remains after stripping leading and trailing whitespace.
pub uninterp spec fn trimmed_of(s: Seq<char>) -> Seq<char>;

/// Relies on `String::from_utf8_lossy`: best-effort decoding whose result
/// depends on the bytes alone; invalid sequences are replaced, never
/// rejected, and bytes of a valid encoding — ASCII in particular — come
/// through unchanged.
#[verifier::external_body]
fn decode_lossy(b: &Vec<u8>) -> (r: String)
    ensures
        r@ == lossy_text_of(b@),
        (forall|i: int| 0 <= i < b@.len() ==> b@[i] < 0x80) ==> r@ == b@.map_values(
            |x: u8| x as char,
        ),
{
    String::from_utf8_lossy(b).into_owned()
}

/// Relies on `str::trim`: strips leading and trailing whitespace, a result
/// that depends on the characters alone; it returns a substring, so an
/// empty input stays empty.
#[verifier::external_body]
fn trim_text(s: &String) -> (r: String)
    ensures
        r@ == trimmed_of(s@),
        s@.len() == 0 ==> r@.len() == 0,
{
    s.trim().to_owned()
}

/// Configuration for one line-capture probe, immutable after construction:
/// the logical name of the peripheral this probe should bind to. The
/// registry consumes it; the probe itself never reads it at runtime.
#[derive(Debug)]
pub struct UsartProbeConfig {
    pub peripheral: String,
}

impl Default for UsartProbeConfig {
    /// An empty configuration, naming no peripheral.
    fn default() -> (r: UsartProbeConfig)
        ensures
            r.peripheral@ == Seq::<char>::empty(),
    {
        UsartProbeConfig { peripheral: String::new() }
    }
}

/// Spec-level image of a probe: its configuration, its display identity,
/// the bytes of the line being accumulated, and the records emitted so far.
#[verifier::ext_equal]
pub struct ProbeView {
    /// The configured peripheral name this probe binds to.
    pub config_peripheral: Seq<char>,
    /// The display identity adopted at attachment.
    pub name: Seq<char>,
    /// The pending, not yet terminated, line.
    pub rx: Seq<u8>,
    /// Every record emitted so far, oldest first.
    pub emitted: Seq<Seq<char>>,
}

/// The record emitted for one captured line: the probe's display identity,
/// a space, and the decoded, trimmed line in single quotes.
pub open spec fn probe_record(name: Seq<char>, rx: Seq<u8>) -> Seq<char> {
    name + " '"@ + trimmed_of(lossy_text_of(rx)) + "'"@
}

/// One step of the probe's state machine: a terminator emits the record of
/// the captured line and clears the buffer; any other byte is appended to
/// the buffer, which grows without bound.
pub open spec fn probe_step(pre: ProbeView, v: u8) -> ProbeView {
    if v == LINE_TERMINATOR {
        ProbeView {
            rx: Seq::empty(),
            emitted: pre.emitted.push(probe_record(pre.name, pre.rx)),
            ..pre
        }
    } else {
        ProbeView { rx: pre.rx.push(v), ..pre }
    }
}

/// The probe state after writing each byte of `s`, in order, starting from
/// `pre`.
pub open spec fn probe_run(pre: ProbeView, s: Seq<u8>) -> ProbeView
    decreases s.len(),
{
    if s.len() == 0 {
        pre
    } else {
        probe_run(probe_step(pre, s.first()), s.drop_first())
    }
}

/// Running `s.push(v)` is running `s`, then stepping on `v`.
pub proof fn lemma_probe_run_push(pre: ProbeView, s: Seq<u8>, v: u8)
    ensures
        probe_run(pre, s.push(v)) == probe_step(probe_run(pre, s), v),
    decreases s.len(),
{
    reveal_with_fuel(probe_run, 3);
    if s.len() == 0 {
        assert(s.push(v).first() == v);
        assert(s.push(v).drop_first() =~= s);
    } else {
        assert(s.push(v).first() == s.first());
        assert(s.push(v).drop_first() =~= s.drop_first().push(v));
        lemma_probe_run_push(probe_step(pre, s.first()), s.drop_first(), v);
    }
}

/// Law: a run of bytes containing no terminator only accumulates — the
/// buffer grows by exactly those bytes, in order, and nothing is emitted;
/// identity and history are untouched.
pub proof fn lemma_no_terminator_accumulates(pre: ProbeView, s: Seq<u8>)
    requires
        forall|i: int| 0 <= i < s.len() ==> s[i] != LINE_TERMINATOR,
    ensures
        probe_run(pre, s) == (ProbeView { rx: pre.rx + s, ..pre }),
    decreases s.len(),
{
    if s.len() == 0 {
        assert(probe_run(pre, s) =~= (ProbeView { rx: pre.rx + s, ..pre }));
    } else {
        let mid = probe_step(pre, s.first());
        lemma_no_terminator_accumulates(mid, s.drop_first());
        assert(mid.rx + s.drop_first() =~= pre.rx + s);
        assert(probe_run(pre, s) =~= (ProbeView { rx: pre.rx + s, ..pre }));
    }
}

/// Law: a line `s` with no terminator, written from an empty buffer and
/// closed by one terminator, emits exactly one record — the decoded,
/// trimmed text of `s` under the probe's identity — and leaves the buffer
/// empty again.
pub proof fn lemma_line_emission(pre: ProbeView, s: Seq<u8>)
    requires
        pre.rx.len() == 0,
        forall|i: int| 0 <= i < s.len() ==> s[i] != LINE_TERMINATOR,
    ensures
        probe_run(pre, s.push(LINE_TERMINATOR)) == (ProbeView {
            rx: Seq::<u8>::empty(),
            emitted: pre.emitted.push(probe_record(pre.name, s)),
            ..pre
        }),
{
    lemma_probe_run_push(pre, s, LINE_TERMINATOR);
    lemma_no_terminator_accumulates(pre, s);
    assert(probe_run(pre, s).rx =~= s);
    assert(probe_run(pre, s.push(LINE_TERMINATOR)) =~= (ProbeView {
        rx: Seq::<u8>::empty(),
        emitted: pre.emitted.push(probe_record(pre.name, s)),
        ..pre
    }));
}

/// Law: two consecutive terminators emit exactly two records — the first
/// for whatever was buffered, the second for the empty captured line — and
/// the buffer is empty from the first terminator on.
pub proof fn lemma_double_terminator(pre: ProbeView)
    ensures
        probe_step(pre, LINE_TERMINATOR).rx.len() == 0,
        probe_run(pre, seq![LINE_TERMINATOR, LINE_TERMINATOR]) == (ProbeView {
            rx: Seq::<u8>::empty(),
            emitted: pre.emitted.push(probe_record(pre.name, pre.rx)).push(
                probe_record(pre.name, Seq::<u8>::empty()),
            ),
            ..pre
        }),
{
    reveal_with_fuel(probe_run, 4);
    let s = seq![LINE_TERMINATOR, LINE_TERMINATOR];
    let st1 = probe_step(pre, LINE_TERMINATOR);
    let st2 = probe_step(st1, LINE_TERMINATOR);
    assert(s.first() == LINE_TERMINATOR);
    assert(s.drop_first() =~= seq![LINE_TERMINATOR]);
    assert(s.drop_first().first() == LINE_TERMINATOR);
    assert(s.drop_first().drop_first() =~= Seq::<u8>::empty());
    assert(probe_run(pre, s) == st2);
    assert(st1.rx =~= Seq::<u8>::empty());
    assert(st2 =~= (ProbeView {
        rx: Seq::<u8>::empty(),
        emitted: pre.emitted.push(probe_record(pre.name, pre.rx)).push(
            probe_record(pre.name, Seq::<u8>::empty()),
        ),
        ..pre
    }));
}

/// Law: lines are independent — after any terminator, a following run with
/// no terminator leaves the buffer equal to exactly that run, whatever was
/// buffered or emitted before; no bytes leak from the first line into the
/// second.
pub proof fn lemma_second_line_independent(pre: ProbeView, s: Seq<u8>)
    requires
        forall|i: int| 0 <= i < s.len() ==> s[i] != LINE_TERMINATOR,
    ensures
        probe_run(probe_step(pre, LINE_TERMINATOR), s).rx == s,
        probe_run(probe_step(pre, LINE_TERMINATOR), s).emitted == pre.emitted.push(
            probe_record(pre.name, pre.rx),
        ),
{
    let st = probe_step(pre, LINE_TERMINATOR);
    lemma_no_terminator_accumulates(st, s);
    assert(st.rx + s =~= s);
}

/// A write-only logic analyzer on a serial line: it never injects data back
/// (reads yield 0) and narrates what was sent, one newline-delimited line
/// at a time.
///
/// The observability sink is modeled as the sequence of records the probe
/// retains; the embedding host reads them off through [`UsartProbe::emitted`]
/// and forwards them to its logging facility. A partial line still buffered
/// when the probe is dropped is lost silently; no flush happens on teardown.
pub struct UsartProbe {
    /// This probe's configuration.
    pub config: UsartProbeConfig,
    name: String,
    rx: Vec<u8>,
    emitted: Vec<String>,
}

impl View for UsartProbe {
    type V = ProbeView;

    closed spec fn view(&self) -> ProbeView {
        ProbeView {
            config_peripheral: self.config.peripheral@,
            name: self.name@,
            rx: self.rx@,
            emitted: self.emitted@.map_values(|s: String| s@),
        }
    }
}

impl UsartProbe {
    /// Creates a probe bound by `config`, with an empty display identity,
    /// an empty buffer and no emitted records. The fallible return type
    /// leaves room for future resource-allocating setup; construction
    /// itself always succeeds.
    pub fn new(config: UsartProbeConfig) -> (r: Result<UsartProbe, anyhow::Error>)
        ensures
            r matches Ok(p) && p@ == (ProbeView {
                config_peripheral: config.peripheral@,
                name: Seq::<char>::empty(),
                rx: Seq::<u8>::empty(),
                emitted: Seq::<Seq<char>>::empty(),
            }) && p.inv(),
    {
        let p = UsartProbe {
            config,
            name: String::new(),
            rx: Vec::new(),
            emitted: Vec::new(),
        };
        proof {
            assert(p@ =~= (ProbeView {
                config_peripheral: p.config.peripheral@,
                name: Seq::<char>::empty(),
                rx: Seq::<u8>::empty(),
                emitted: Seq::<Seq<char>>::empty(),
            }));
        }
        Ok(p)
    }

    /// The bytes of the line being accumulated.
    pub fn buffered(&self) -> (r: &Vec<u8>)
        ensures
            r@ == self@.rx,
    {
        &self.rx
    }

    /// Every record emitted so far, oldest first.
    pub fn emitted(&self) -> (r: &Vec<String>)
        ensures
            r@.map_values(|s: String| s@) == self@.emitted,
    {
        &self.emitted
    }

    /// The display identity adopted at attachment; empty until
    /// `connect_peripheral` is called.
    pub fn display(&self) -> (r: &String)
        ensures
            r@ == self@.name,
    {
        &self.name
    }
}

impl Default for UsartProbe {
    /// A probe with an empty configuration, identity, buffer and record
    /// history.
    fn default() -> (r: UsartProbe)
        ensures
            r@ == (ProbeView {
                config_peripheral: Seq::<char>::empty(),
                name: Seq::<char>::empty(),
                rx: Seq::<u8>::empty(),
                emitted: Seq::<Seq<char>>::empty(),
            }),
            r.inv(),
    {
        let p = UsartProbe {
            config: UsartProbeConfig::default(),
            name: String::new(),
            rx: Vec::new(),
            emitted: Vec::new(),
        };
        proof {
            assert(p@ =~= (ProbeView {
                config_peripheral: Seq::<char>::empty(),
                name: Seq::<char>::empty(),
                rx: Seq::<u8>::empty(),
                emitted: Seq::<Seq<char>>::empty(),
            }));
        }
        p
    }
}

impl ExtDevice<(), u8> for UsartProbe {
    /// The pending line never contains a terminator: the terminator
    /// triggers a flush before it could be inserted.
    open spec fn inv(&self) -> bool {
        forall|i: int| 0 <= i < self@.rx.len() ==> self@.rx[i] != LINE_TERMINATOR
    }

    /// The identity a probe adopts under peripheral `peri_name`.
    open spec fn display_name(&self, peri_name: Seq<char>) -> Seq<char> {
        peri_name + " usart-probe"@
    }

    /// Connecting only sets the display identity.
    open spec fn connect_post(pre: Self, post: Self, peri_name: Seq<char>) -> bool {
        post@ == (ProbeView { name: pre.display_name(peri_name), ..pre@ })
    }

    /// Reads change nothing and always yield 0: the probe models a receive
    /// line with nothing pending.
    open spec fn read_post(pre: Self, post: Self, addr: (), r: u8) -> bool {
        post@ == pre@ && r == 0
    }

    /// A write advances the line-capture state machine by one step.
    open spec fn write_post(pre: Self, post: Self, addr: (), v: u8) -> bool {
        post@ == probe_step(pre@, v)
    }

    fn connect_peripheral(&mut self, peri_name: &str) -> (r: String) {
        let mut n: String = peri_name.to_owned();
        n.append(" usart-probe");
        self.name = n;
        proof {
            assert(self@ =~= (ProbeView {
                name: old(self).display_name(peri_name@),
                ..old(self)@
            }));
        }
        self.name.clone()
    }

    fn read(&mut self, _sys: &System, _addr: ()) -> u8 {
        0
    }

    fn write(&mut self, _sys: &System, _addr: (), v: u8) {
        if v == LINE_TERMINATOR {
            let text = decode_lossy(&self.rx);
            let line = trim_text(&text);
            let mut rec = self.name.clone();
            rec.append(" '");
            rec.append(line.as_str());
            rec.append("'");
            let ghost rec_view = rec@;
            self.emitted.push(rec);
            self.rx.clear();
            proof {
                assert(rec_view == probe_record(old(self)@.name, old(self)@.rx));
                assert(self@.emitted =~= old(self)@.emitted.push(rec_view));
                assert(self@ =~= probe_step(old(self)@, v));
            }
        } else {
            self.rx.push(v);
            proof {
                assert(self@ =~= probe_step(old(self)@, v));
            }
        }
    }
}

} // verus!
