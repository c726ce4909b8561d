use vstd::prelude::*;

use crate::signal::{changes_view, resample, samples, Signal};
use crate::text::{
    chars_of, parse_number, parse_unsigned, split_words, string_of, trim, trimmed_range, words,
};

verus! {

/// One decoded trace.
#[derive(Clone, Debug)]
pub struct VcdData {
    /// Display unit of the timestamps.
    pub timescale: String,
    /// Declared signals, in declaration order.
    pub signals: Vec<Signal>,
    /// The largest timestamp of any time marker of the body.
    pub max_time: u64,
}

/// A declared signal as plain values, without its display samples.
pub struct SignalModel {
    pub name: Seq<char>,
    pub identifier: Seq<char>,
    pub width: usize,
    pub changes: Seq<(u64, Seq<char>)>,
}

pub open spec fn signal_model(s: Signal) -> SignalModel {
    SignalModel {
        name: s.name@,
        identifier: s.identifier@,
        width: s.width,
        changes: changes_view(s.values@),
    }
}

/// What a scan of a trace knows after some of its lines.
pub struct ScanModel {
    /// Still in the definitions block.
    pub in_definitions: bool,
    /// The previous line declared the timescale, which this line then holds.
    pub timescale_next: bool,
    pub timescale: Seq<char>,
    pub signals: Seq<SignalModel>,
    /// The timestamp of the last valid time marker.
    pub time: u64,
    pub max_time: u64,
}

pub open spec fn var_mark() -> Seq<char> {
    seq!['$', 'v', 'a', 'r']
}

pub open spec fn timescale_mark() -> Seq<char> {
    seq!['$', 't', 'i', 'm', 'e', 's', 'c', 'a', 'l', 'e']
}

pub open spec fn enddefinitions_mark() -> Seq<char> {
    seq!['$', 'e', 'n', 'd', 'd', 'e', 'f', 'i', 'n', 'i', 't', 'i', 'o', 'n', 's']
}

/// What closes a declaration: a space, then `$end`.
pub open spec fn end_mark() -> Seq<char> {
    seq![' ', '$', 'e', 'n', 'd']
}

/// The timescale of a trace that declares none.
pub open spec fn default_timescale() -> Seq<char> {
    seq!['1', 'n', 's']
}

pub open spec fn has_prefix(s: Seq<char>, p: Seq<char>) -> bool {
    p.len() <= s.len() && s.subrange(0, p.len() as int) == p
}

pub open spec fn has_suffix(s: Seq<char>, p: Seq<char>) -> bool {
    p.len() <= s.len() && s.subrange(s.len() - p.len(), s.len() as int) == p
}

/// `s` without every trailing ` $end`.
pub open spec fn strip_end_marks(s: Seq<char>) -> Seq<char>
    decreases s.len(),
{
    if has_suffix(s, end_mark()) {
        strip_end_marks(s.subrange(0, s.len() - 5))
    } else {
        s
    }
}

/// The words `ws` joined by single spaces.
pub open spec fn join_words(ws: Seq<Seq<char>>) -> Seq<char>
    decreases ws.len(),
{
    if ws.len() == 0 {
        seq![]
    } else if ws.len() == 1 {
        ws[0]
    } else {
        join_words(ws.drop_last()) + seq![' '] + ws.last()
    }
}

/// The signal that a `$var` line declares: its third word is the width (1 when that is not a
/// number), its fourth the identifier, the rest the name; `None` with fewer than five words.
pub open spec fn declaration(l: Seq<char>) -> Option<SignalModel> {
    let w = words(l);
    if w.len() >= 5 {
        Some(
            SignalModel {
                name: strip_end_marks(join_words(w.subrange(4, w.len() as int))),
                identifier: w[3],
                width: match parse_unsigned(w[2], 10, usize::MAX as nat) {
                    Some(n) => n as usize,
                    None => 1,
                },
                changes: seq![],
            },
        )
    } else {
        None
    }
}

/// The `(value, identifier)` of a value-change line: after a `b`, its first two words; else its
/// first character and the rest of it.
pub open spec fn record(l: Seq<char>) -> Option<(Seq<char>, Seq<char>)> {
    if l.len() > 0 && l[0] == 'b' {
        let w = words(l.drop_first());
        if w.len() >= 2 {
            Some((w[0], w[1]))
        } else {
            None
        }
    } else if l.len() >= 2 {
        Some((seq![l[0]], l.drop_first()))
    } else {
        None
    }
}

/// The index of the last declared signal whose identifier is `id`.
pub open spec fn resolve(sigs: Seq<SignalModel>, id: Seq<char>) -> Option<int>
    decreases sigs.len(),
{
    if sigs.len() == 0 {
        None
    } else if sigs.last().identifier == id {
        Some(sigs.len() - 1)
    } else {
        resolve(sigs.drop_last(), id)
    }
}

/// The scan after the trimmed line `l`.
pub open spec fn scan_line(st: ScanModel, l: Seq<char>) -> ScanModel {
    if st.in_definitions {
        ScanModel {
            in_definitions: !has_prefix(l, enddefinitions_mark()),
            timescale_next: has_prefix(l, timescale_mark()),
            timescale: if st.timescale_next {
                l
            } else {
                st.timescale
            },
            signals: if has_prefix(l, var_mark()) && declaration(l) is Some {
                st.signals.push(declaration(l)->0)
            } else {
                st.signals
            },
            ..st
        }
    } else if l.len() == 0 || l[0] == '$' {
        st
    } else if l[0] == '#' {
        match parse_unsigned(l.drop_first(), 10, u64::MAX as nat) {
            Some(t) => ScanModel {
                time: t as u64,
                max_time: if t > st.max_time {
                    t as u64
                } else {
                    st.max_time
                },
                ..st
            },
            None => st,
        }
    } else {
        match record(l) {
            Some(r) => match resolve(st.signals, r.1) {
                Some(j) => ScanModel {
                    signals: st.signals.update(
                        j,
                        SignalModel {
                            changes: st.signals[j].changes.push((st.time, r.0)),
                            ..st.signals[j]
                        },
                    ),
                    ..st
                },
                None => st,
            },
            None => st,
        }
    }
}

/// The scan after the lines `ls`, each trimmed, in order.
pub open spec fn scan_lines(st: ScanModel, ls: Seq<Seq<char>>) -> ScanModel
    decreases ls.len(),
{
    if ls.len() == 0 {
        st
    } else {
        scan_lines(scan_line(st, trim(ls[0])), ls.drop_first())
    }
}

pub open spec fn initial_scan() -> ScanModel {
    ScanModel {
        in_definitions: true,
        timescale_next: false,
        timescale: default_timescale(),
        signals: seq![],
        time: 0,
        max_time: 0,
    }
}

/// The number of characters before the first line break of `s`.
pub open spec fn line_len(s: Seq<char>) -> nat
    decreases s.len(),
{
    if s.len() == 0 || s[0] == '\n' {
        0
    } else {
        1 + line_len(s.drop_first())
    }
}

/// The lines of `s`: the pieces between line breaks, with no empty piece after a final break.
pub open spec fn lines(s: Seq<char>) -> Seq<Seq<char>>
    decreases s.len(),
{
    if s.len() == 0 {
        seq![]
    } else if line_len(s) >= s.len() {
        seq![s]
    } else {
        seq![s.subrange(0, line_len(s) as int)] + lines(s.subrange(line_len(s) + 1int, s.len() as int))
    }
}

/// The scan of the whole text `s`.
pub open spec fn scan_text(s: Seq<char>) -> ScanModel {
    scan_lines(initial_scan(), lines(s))
}

/// The document that `parse_vcd` returns on the text `s`, as `(timescale, max_time)`, the
/// declared signals and their display samples.
pub open spec fn parsed(d: VcdData, s: Seq<char>) -> bool {
    let st = scan_text(s);
    &&& d.timescale@ == st.timescale
    &&& d.max_time == st.max_time
    &&& d.signals@.len() == st.signals.len()
    &&& forall|j: int|
        0 <= j < st.signals.len() ==> {
            &&& #[trigger] signal_model(d.signals@[j]) == st.signals[j]
            &&& d.signals@[j].chart_data@ == samples(
                st.signals[j].changes,
                st.signals[j].width,
                st.max_time,
            )
        }
}

proof fn lemma_line_len_is(s: Seq<char>, k: int)
    requires
        0 <= k <= s.len(),
        forall|j: int| 0 <= j < k ==> #[trigger] s[j] != '\n',
        k == s.len() || s[k] == '\n',
    ensures
        line_len(s) == k,
    decreases s.len(),
{
    if k > 0 {
        let d = s.drop_first();
        assert forall|j: int| 0 <= j < k - 1 implies #[trigger] d[j] != '\n' by {
            assert(d[j] == s[j + 1]);
        }
        lemma_line_len_is(d, k - 1);
    }
}


fn var_mark_chars() -> (r: Vec<char>)
    ensures
        r@ == var_mark(),
{
    let r = vec!['$', 'v', 'a', 'r'];
    assert(r@ =~= var_mark());
    r
}

fn timescale_mark_chars() -> (r: Vec<char>)
    ensures
        r@ == timescale_mark(),
{
    let r = vec!['$', 't', 'i', 'm', 'e', 's', 'c', 'a', 'l', 'e'];
    assert(r@ =~= timescale_mark());
    r
}

fn enddefinitions_mark_chars() -> (r: Vec<char>)
    ensures
        r@ == enddefinitions_mark(),
{
    let r = vec!['$', 'e', 'n', 'd', 'd', 'e', 'f', 'i', 'n', 'i', 't', 'i', 'o', 'n', 's'];
    assert(r@ =~= enddefinitions_mark());
    r
}

fn starts_with(v: &Vec<char>, p: &Vec<char>) -> (r: bool)
    ensures
        r == has_prefix(v@, p@),
{
    if p.len() > v.len() {
        return false;
    }
    let mut i: usize = 0;
    while i < p.len()
        invariant
            p.len() <= v.len(),
            i <= p.len(),
            forall|j: int| 0 <= j < i ==> #[trigger] v@[j] == p@[j],
        decreases p.len() - i,
    {
        if v[i] != p[i] {
            assert(v@.subrange(0, p@.len() as int)[i as int] != p@[i as int]);
            return false;
        }
        i = i + 1;
    }
    assert(v@.subrange(0, p@.len() as int) =~= p@);
    true
}

fn same_chars(a: &Vec<char>, b: &Vec<char>) -> (r: bool)
    ensures
        r == (a@ == b@),
{
    if a.len() != b.len() {
        return false;
    }
    let mut i: usize = 0;
    while i < a.len()
        invariant
            a.len() == b.len(),
            i <= a.len(),
            forall|j: int| 0 <= j < i ==> #[trigger] a@[j] == b@[j],
        decreases a.len() - i,
    {
        if a[i] != b[i] {
            return false;
        }
        i = i + 1;
    }
    assert(a@ =~= b@);
    true
}

fn copy_chars(v: &Vec<char>, from: usize, to: usize) -> (r: Vec<char>)
    requires
        from <= to <= v.len(),
    ensures
        r@ == v@.subrange(from as int, to as int),
{
    let mut out: Vec<char> = Vec::new();
    let mut k = from;
    while k < to
        invariant
            from <= k <= to <= v.len(),
            out@ == v@.subrange(from as int, k as int),
        decreases to - k,
    {
        out.push(v[k]);
        k = k + 1;
        assert(out@ =~= v@.subrange(from as int, k as int));
    }
    out
}

/// `ws[from..]` joined by single spaces.
fn join_from(ws: &Vec<Vec<char>>, from: usize) -> (r: Vec<char>)
    requires
        from < ws.len(),
    ensures
        r@ == join_words(ws@.map_values(|w: Vec<char>| w@).subrange(from as int, ws.len() as int)),
{
    let ghost all = ws@.map_values(|w: Vec<char>| w@);
    let mut out = copy_chars(&ws[from], 0, ws[from].len());
    assert(all.subrange(from as int, from + 1) =~= seq![ws@[from as int]@]);
    assert(out@ =~= ws@[from as int]@);
    let mut k = from + 1;
    while k < ws.len()
        invariant
            from < k <= ws.len(),
            all == ws@.map_values(|w: Vec<char>| w@),
            out@ == join_words(all.subrange(from as int, k as int)),
        decreases ws.len() - k,
    {
        out.push(' ');
        let w = &ws[k];
        let mut i: usize = 0;
        let ghost base = out@;
        while i < w.len()
            invariant
                i <= w.len(),
                out@ == base + w@.subrange(0, i as int),
            decreases w.len() - i,
        {
            out.push(w[i]);
            i = i + 1;
            assert(out@ =~= base + w@.subrange(0, i as int));
        }
        let ghost next = all.subrange(from as int, k + 1);
        assert(next.drop_last() =~= all.subrange(from as int, k as int));
        assert(w@.subrange(0, i as int) =~= w@);
        assert(out@ =~= join_words(next));
        k = k + 1;
    }
    out
}

/// `v` without every trailing ` $end`.
fn strip_marks(v: &Vec<char>) -> (r: Vec<char>)
    ensures
        r@ == strip_end_marks(v@),
{
    let mut end = v.len();
    assert(v@.subrange(0, end as int) =~= v@);
    while end >= 5 && v[end - 5] == ' ' && v[end - 4] == '$' && v[end - 3] == 'e' && v[end - 2]
        == 'n' && v[end - 1] == 'd'
        invariant
            end <= v.len(),
            strip_end_marks(v@) == strip_end_marks(v@.subrange(0, end as int)),
        decreases end,
    {
        let ghost s = v@.subrange(0, end as int);
        assert(s.subrange(s.len() - 5, s.len() as int) =~= end_mark());
        assert(s.subrange(0, s.len() - 5) =~= v@.subrange(0, end - 5));
        end = end - 5;
    }
    proof {
        let s = v@.subrange(0, end as int);
        if has_suffix(s, end_mark()) {
            let t = s.subrange(s.len() - 5, s.len() as int);
            assert(t[0] == ' ' && t[1] == '$' && t[2] == 'e' && t[3] == 'n' && t[4] == 'd');
        }
    }
    copy_chars(v, 0, end)
}


/// The state of a scan through a trace's lines.
struct Scanner {
    in_definitions: bool,
    timescale_next: bool,
    timescale: Vec<char>,
    signals: Vec<Signal>,
    /// The identifier of each signal, as characters.
    ids: Vec<Vec<char>>,
    time: u64,
    max_time: u64,
}

impl Scanner {
    spec fn model(&self) -> ScanModel {
        ScanModel {
            in_definitions: self.in_definitions,
            timescale_next: self.timescale_next,
            timescale: self.timescale@,
            signals: self.signals@.map_values(|s: Signal| signal_model(s)),
            time: self.time,
            max_time: self.max_time,
        }
    }

    spec fn wf(&self) -> bool {
        &&& self.ids@.len() == self.signals@.len()
        &&& forall|k: int|
            0 <= k < self.ids@.len() ==> #[trigger] self.ids@[k]@ == self.signals@[k].identifier@
    }

    /// The index of the last signal declared with the identifier `id`.
    fn find(&self, id: &Vec<char>) -> (r: Option<usize>)
        requires
            self.wf(),
        ensures
            match r {
                Some(j) => j < self.signals.len() && resolve(self.model().signals, id@) == Some(
                    j as int,
                ),
                None => resolve(self.model().signals, id@) is None,
            },
    {
        let ghost ms = self.model().signals;
        let mut k = self.ids.len();
        assert(ms.subrange(0, k as int) =~= ms);
        while k > 0
            invariant
                k <= self.ids.len(),
                self.wf(),
                ms == self.model().signals,
                resolve(ms, id@) == resolve(ms.subrange(0, k as int), id@),
            decreases k,
        {
            let ghost sub = ms.subrange(0, k as int);
            if same_chars(&self.ids[k - 1], id) {
                return Some(k - 1);
            }
            assert(sub.drop_last() =~= ms.subrange(0, k - 1));
            k = k - 1;
        }
        None
    }

    /// Reads the trimmed line `l`.
    fn line(&mut self, l: &Vec<char>)
        requires
            old(self).wf(),
        ensures
            final(self).wf(),
            final(self).model() == scan_line(old(self).model(), l@),
    {
        let ghost before = self.model();
        if self.in_definitions {
            if self.timescale_next {
                self.timescale = copy_chars(l, 0, l.len());
                assert(l@.subrange(0, l@.len() as int) =~= l@);
            }
            self.timescale_next = starts_with(l, &timescale_mark_chars());
            if starts_with(l, &var_mark_chars()) {
                let ws = split_words(l);
                if ws.len() >= 5 {
                    let width: usize = match parse_number(&ws[2], 10, usize::MAX as u64) {
                        Some(n) => n as usize,
                        None => 1,
                    };
                    let name = strip_marks(&join_from(&ws, 4));
                    let id = copy_chars(&ws[3], 0, ws[3].len());
                    assert(ws@[3]@.subrange(0, ws@[3]@.len() as int) =~= ws@[3]@);
                    let sig = Signal {
                        name: string_of(&name),
                        identifier: string_of(&id),
                        width,
                        values: Vec::new(),
                        chart_data: Vec::new(),
                    };
                    let ghost old_signals = self.signals@;
                    self.signals.push(sig);
                    self.ids.push(id);
                    assert(changes_view(sig.values@) =~= seq![]);
                    assert(self.signals@.map_values(|s: Signal| signal_model(s)) =~= old_signals.map_values(
                        |s: Signal| signal_model(s),
                    ).push(signal_model(sig)));
                }
            }
            if starts_with(l, &enddefinitions_mark_chars()) {
                self.in_definitions = false;
            }
        } else if l.len() == 0 || l[0] == '$' {
        } else if l[0] == '#' {
            let rest = copy_chars(l, 1, l.len());
            assert(rest@ =~= l@.drop_first());
            match parse_number(&rest, 10, u64::MAX) {
                Some(t) => {
                    self.time = t;
                    if t > self.max_time {
                        self.max_time = t;
                    }
                },
                None => {},
            }
        } else {
            let parsed: Option<(Vec<char>, Vec<char>)> = if l[0] == 'b' {
                let rest = copy_chars(l, 1, l.len());
                assert(rest@ =~= l@.drop_first());
                let ws = split_words(&rest);
                if ws.len() >= 2 {
                    let v = copy_chars(&ws[0], 0, ws[0].len());
                    let id = copy_chars(&ws[1], 0, ws[1].len());
                    assert(ws@[0]@.subrange(0, ws@[0]@.len() as int) =~= ws@[0]@);
                    assert(ws@[1]@.subrange(0, ws@[1]@.len() as int) =~= ws@[1]@);
                    Some((v, id))
                } else {
                    None
                }
            } else if l.len() >= 2 {
                let v = copy_chars(l, 0, 1);
                let id = copy_chars(l, 1, l.len());
                assert(v@ =~= seq![l@[0]]);
                assert(id@ =~= l@.drop_first());
                Some((v, id))
            } else {
                None
            };
            match parsed {
                Some(p) => {
                    let (v, id) = p;
                    match self.find(&id) {
                        Some(j) => {
                            let t = self.time;
                            let ghost old_signals = self.signals@;
                            let ghost old_values = self.signals@[j as int].values@;
                            let value = string_of(&v);
                            self.signals[j].values.push((t, value));
                            assert(changes_view(self.signals@[j as int].values@) =~= changes_view(
                                old_values,
                            ).push((t, v@)));
                            assert(self.signals@ =~= old_signals.update(
                                j as int,
                                self.signals@[j as int],
                            ));
                            assert(self.signals@.map_values(|s: Signal| signal_model(s))
                                =~= before.signals.update(
                                j as int,
                                SignalModel {
                                    changes: before.signals[j as int].changes.push((t, v@)),
                                    ..before.signals[j as int]
                                },
                            ));
                        },
                        None => {},
                    }
                },
                None => {},
            }
        }
    }
}

/// Decodes the text of a trace: its timescale, its declared signals with their value changes,
/// the largest timestamp of its body, and each signal's display samples.
///
/// Lines that are not understood are skipped; so are value changes whose identifier no signal
/// declares.
pub fn parse_vcd(text: &str) -> (d: VcdData)
    ensures
        parsed(d, text@),
{
    let chars = chars_of(text);
    let n = chars.len();
    let mut sc = Scanner {
        in_definitions: true,
        timescale_next: false,
        timescale: vec!['1', 'n', 's'],
        signals: Vec::new(),
        ids: Vec::new(),
        time: 0,
        max_time: 0,
    };
    assert(sc.model().signals =~= seq![]);
    assert(sc.model().timescale =~= default_timescale());
    assert(chars@.subrange(0, n as int) =~= chars@);
    let mut i: usize = 0;
    while i < n
        invariant
            n == chars.len(),
            chars@ == text@,
            i <= n,
            sc.wf(),
            scan_lines(sc.model(), lines(chars@.subrange(i as int, n as int))) == scan_text(text@),
        decreases n - i,
    {
        let mut j = i;
        while j < n && chars[j] != '\n'
            invariant
                i <= j <= n,
                n == chars.len(),
                forall|k: int| i <= k < j ==> #[trigger] chars@[k] != '\n',
            decreases n - j,
        {
            j = j + 1;
        }
        let ghost rest = chars@.subrange(i as int, n as int);
        proof {
            assert forall|k: int| 0 <= k < j - i implies #[trigger] rest[k] != '\n' by {
                assert(rest[k] == chars@[i + k]);
            }
            lemma_line_len_is(rest, j - i);
            assert(rest.subrange(0, j - i) =~= chars@.subrange(i as int, j as int));
        }
        let line = trimmed_range(&chars, i, j);
        let ghost st = sc.model();
        sc.line(&line);
        if j < n {
            proof {
                assert(rest.subrange(j - i + 1, rest.len() as int) =~= chars@.subrange(
                    j + 1,
                    n as int,
                ));
                let ls = lines(rest);
                assert(ls[0] == chars@.subrange(i as int, j as int));
                assert(ls.drop_first() =~= lines(chars@.subrange(j + 1, n as int)));
            }
            i = j + 1;
        } else {
            proof {
                assert(rest =~= chars@.subrange(i as int, j as int));
                assert(lines(rest) =~= seq![rest]);
                assert(lines(rest).drop_first() =~= seq![]);
                assert(chars@.subrange(n as int, n as int) =~= seq![]);
            }
            i = n;
        }
    }
    let ghost fin = sc.model();
    assert(chars@.subrange(i as int, n as int) =~= seq![]);
    let max_time = sc.max_time;
    let mut k: usize = 0;
    while k < sc.signals.len()
        invariant
            k <= sc.signals.len(),
            sc.max_time == max_time,
            sc.model() == fin,
            forall|j: int|
                0 <= j < k ==> #[trigger] sc.signals@[j].chart_data@ == samples(
                    fin.signals[j].changes,
                    fin.signals[j].width,
                    max_time,
                ),
        decreases sc.signals.len() - k,
    {
        let data = resample(&sc.signals[k].values, sc.signals[k].width, max_time);
        let ghost old_signals = sc.signals@;
        sc.signals[k].chart_data = data;
        assert(sc.signals@.map_values(|s: Signal| signal_model(s)) =~= old_signals.map_values(
            |s: Signal| signal_model(s),
        ));
        k = k + 1;
    }
    VcdData { timescale: string_of(&sc.timescale), signals: sc.signals, max_time }
}


/// Whether `l` is read as a value-change record in the body of a trace.
pub open spec fn is_record_line(st: ScanModel, l: Seq<char>) -> bool {
    &&& !st.in_definitions
    &&& l.len() > 0
    &&& l[0] != '$'
    &&& l[0] != '#'
    &&& record(l) is Some
}

/// A value change whose identifier no signal declares is dropped: reading it changes nothing,
/// neither any signal's changes nor anything else of the scan.
pub proof fn lemma_unknown_identifier_dropped(st: ScanModel, l: Seq<char>)
    requires
        is_record_line(st, l),
        resolve(st.signals, (record(l)->0).1) is None,
    ensures
        scan_line(st, l) == st,
{
}

/// A value change whose identifier a signal declares adds one change, the current timestamp
/// and the value, at the end of the last signal declared with that identifier, and changes
/// nothing else.
pub proof fn lemma_known_identifier_appended(st: ScanModel, l: Seq<char>)
    requires
        is_record_line(st, l),
        resolve(st.signals, (record(l)->0).1) is Some,
    ensures
        ({
            let j = resolve(st.signals, (record(l)->0).1)->0;
            let after = scan_line(st, l);
            &&& after.signals.len() == st.signals.len()
            &&& after.signals[j].changes == st.signals[j].changes.push((st.time, (record(l)->0).0))
            &&& after.signals[j].identifier == st.signals[j].identifier
            &&& forall|k: int|
                0 <= k < st.signals.len() && k != j ==> #[trigger] after.signals[k]
                    == st.signals[k]
            &&& after.time == st.time
            &&& after.max_time == st.max_time
        }),
{
    lemma_resolve_in_range(st.signals, (record(l)->0).1);
}

proof fn lemma_resolve_in_range(sigs: Seq<SignalModel>, id: Seq<char>)
    ensures
        resolve(sigs, id) matches Some(j) ==> 0 <= j < sigs.len() && sigs[j].identifier == id,
    decreases sigs.len(),
{
    if sigs.len() > 0 && sigs.last().identifier != id {
        lemma_resolve_in_range(sigs.drop_last(), id);
    }
}


/// The value-change records that a scan from `st` meets in the lines `ls`, in order: for each
/// record line of the body, the timestamp current there, the value and the identifier.
pub open spec fn body_records(st: ScanModel, ls: Seq<Seq<char>>) -> Seq<
    (u64, Seq<char>, Seq<char>),
>
    decreases ls.len(),
{
    if ls.len() == 0 {
        seq![]
    } else {
        let l = trim(ls[0]);
        let here = if is_record_line(st, l) {
            seq![(st.time, (record(l)->0).0, (record(l)->0).1)]
        } else {
            seq![]
        };
        here + body_records(scan_line(st, l), ls.drop_first())
    }
}

/// The `(timestamp, value)` of the records of `recs` whose identifier names the signal `j` of
/// `sigs`, in order.
pub open spec fn records_of(
    recs: Seq<(u64, Seq<char>, Seq<char>)>,
    sigs: Seq<SignalModel>,
    j: int,
) -> Seq<(u64, Seq<char>)>
    decreases recs.len(),
{
    if recs.len() == 0 {
        seq![]
    } else {
        (if resolve(sigs, recs[0].2) == Some(j) {
            seq![(recs[0].0, recs[0].1)]
        } else {
            seq![]
        }) + records_of(recs.drop_first(), sigs, j)
    }
}

pub open spec fn same_identifiers(a: Seq<SignalModel>, b: Seq<SignalModel>) -> bool {
    &&& a.len() == b.len()
    &&& forall|j: int| 0 <= j < a.len() ==> #[trigger] a[j].identifier == b[j].identifier
}

proof fn lemma_resolve_same(a: Seq<SignalModel>, b: Seq<SignalModel>, id: Seq<char>)
    requires
        same_identifiers(a, b),
    ensures
        resolve(a, id) == resolve(b, id),
    decreases a.len(),
{
    if a.len() > 0 {
        assert(a.last().identifier == b.last().identifier);
        assert(same_identifiers(a.drop_last(), b.drop_last()));
        lemma_resolve_same(a.drop_last(), b.drop_last(), id);
    }
}

/// The changes a signal had when the scan stood at `st`, or none for one declared later.
pub open spec fn changes_before(st: ScanModel, j: int) -> Seq<(u64, Seq<char>)> {
    if j < st.signals.len() {
        st.signals[j].changes
    } else {
        seq![]
    }
}

proof fn lemma_scan_records(st: ScanModel, ls: Seq<Seq<char>>)
    ensures
        ({
            let fin = scan_lines(st, ls);
            let recs = body_records(st, ls);
            &&& fin.signals.len() >= st.signals.len()
            &&& forall|j: int|
                0 <= j < st.signals.len() ==> #[trigger] fin.signals[j].identifier
                    == st.signals[j].identifier
            &&& !st.in_definitions ==> fin.signals.len() == st.signals.len()
            &&& forall|j: int|
                0 <= j < fin.signals.len() ==> #[trigger] fin.signals[j].changes
                    == changes_before(st, j) + records_of(recs, fin.signals, j)
        }),
    decreases ls.len(),
{
    if ls.len() == 0 {
        let fin = scan_lines(st, ls);
        assert forall|j: int| 0 <= j < fin.signals.len() implies #[trigger] fin.signals[j].changes
            == changes_before(st, j) + records_of(body_records(st, ls), fin.signals, j) by {
            assert(changes_before(st, j) + seq![] =~= changes_before(st, j));
        }
    } else {
        let l = trim(ls[0]);
        let st1 = scan_line(st, l);
        let rest = ls.drop_first();
        lemma_scan_records(st1, rest);
        let fin = scan_lines(st, ls);
        assert(fin == scan_lines(st1, rest));
        let recs1 = body_records(st1, rest);
        let recs = body_records(st, ls);
        if st.in_definitions {
            assert(recs =~= recs1);
            assert forall|j: int| 0 <= j < st.signals.len() implies #[trigger] fin.signals[j].identifier
                == st.signals[j].identifier by {
                assert(st1.signals[j] == st.signals[j]);
            }
            assert forall|j: int| 0 <= j < fin.signals.len() implies #[trigger] fin.signals[j].changes
                == changes_before(st, j) + records_of(recs, fin.signals, j) by {
                assert(changes_before(st1, j) == changes_before(st, j));
            }
        } else {
            assert(same_identifiers(st1.signals, st.signals)) by {
                if is_record_line(st, l) {
                    lemma_resolve_in_range(st.signals, (record(l)->0).1);
                }
            }
            assert(same_identifiers(fin.signals, st1.signals));
            assert forall|j: int| 0 <= j < st.signals.len() implies #[trigger] fin.signals[j].identifier
                == st.signals[j].identifier by {
                assert(fin.signals[j].identifier == st1.signals[j].identifier);
                assert(st1.signals[j].identifier == st.signals[j].identifier);
            }
            if is_record_line(st, l) {
                let r = record(l)->0;
                let head = (st.time, r.0, r.1);
                assert(recs == seq![head] + recs1);
                assert(recs.drop_first() =~= recs1);
                assert(recs[0] == head);
                lemma_resolve_same(fin.signals, st.signals, r.1);
                lemma_resolve_in_range(st.signals, r.1);
                assert forall|j: int| 0 <= j < fin.signals.len() implies #[trigger] fin.signals[j].changes
                    == changes_before(st, j) + records_of(recs, fin.signals, j) by {
                    let h = if resolve(fin.signals, r.1) == Some(j) {
                        seq![(st.time, r.0)]
                    } else {
                        seq![]
                    };
                    assert(records_of(recs, fin.signals, j) == h + records_of(
                        recs1,
                        fin.signals,
                        j,
                    ));
                    assert(changes_before(st1, j) =~= changes_before(st, j) + h);
                    assert(fin.signals[j].changes == changes_before(st1, j) + records_of(
                        recs1,
                        fin.signals,
                        j,
                    ));
                    assert(changes_before(st1, j) + records_of(recs1, fin.signals, j)
                        =~= changes_before(st, j) + (h + records_of(recs1, fin.signals, j)));
                }
            } else {
                assert(recs =~= recs1);
                assert(st1.signals == st.signals);
                assert forall|j: int| 0 <= j < fin.signals.len() implies #[trigger] fin.signals[j].changes
                    == changes_before(st, j) + records_of(recs, fin.signals, j) by {
                    assert(changes_before(st1, j) == changes_before(st, j));
                }
            }
        }
    }
}

/// Each signal of a parsed trace holds exactly the body's value-change records whose identifier
/// names it, as `(timestamp, value)`, in file order; a record whose identifier no signal
/// declares is in no signal. So the changes of all signals together number the records with a
/// known identifier.
pub proof fn lemma_changes_are_records(text: Seq<char>)
    ensures
        ({
            let st = scan_text(text);
            let recs = body_records(initial_scan(), lines(text));
            forall|j: int|
                0 <= j < st.signals.len() ==> #[trigger] st.signals[j].changes == records_of(
                    recs,
                    st.signals,
                    j,
                )
        }),
{
    let st = scan_text(text);
    let recs = body_records(initial_scan(), lines(text));
    lemma_scan_records(initial_scan(), lines(text));
    assert forall|j: int| 0 <= j < st.signals.len() implies #[trigger] st.signals[j].changes
        == records_of(recs, st.signals, j) by {
        assert(seq![] + records_of(recs, st.signals, j) =~= records_of(recs, st.signals, j));
    }
}

/// Whether the timestamps of `s` never decrease.
pub open spec fn ascending<A>(s: Seq<(u64, A)>) -> bool {
    forall|a: int, b: int| 0 <= a < b < s.len() ==> #[trigger] s[a].0 <= #[trigger] s[b].0
}

/// Whether the timestamps of the records `recs` never decrease.
pub open spec fn records_ascending(recs: Seq<(u64, Seq<char>, Seq<char>)>) -> bool {
    forall|a: int, b: int| 0 <= a < b < recs.len() ==> #[trigger] recs[a].0 <= #[trigger] recs[b].0
}

proof fn lemma_records_of_ascending(
    recs: Seq<(u64, Seq<char>, Seq<char>)>,
    sigs: Seq<SignalModel>,
    j: int,
    lo: u64,
)
    requires
        records_ascending(recs),
        forall|k: int| 0 <= k < recs.len() ==> lo <= #[trigger] recs[k].0,
    ensures
        ascending(records_of(recs, sigs, j)),
        forall|k: int|
            0 <= k < records_of(recs, sigs, j).len() ==> lo <= #[trigger] records_of(
                recs,
                sigs,
                j,
            )[k].0,
    decreases recs.len(),
{
    if recs.len() > 0 {
        let rest = recs.drop_first();
        assert forall|k: int| 0 <= k < rest.len() implies recs[0].0 <= #[trigger] rest[k].0 by {
            assert(rest[k] == recs[k + 1]);
        }
        assert(records_ascending(rest)) by {
            assert forall|a: int, b: int| 0 <= a < b < rest.len() implies #[trigger] rest[a].0
                <= #[trigger] rest[b].0 by {
                assert(rest[a] == recs[a + 1] && rest[b] == recs[b + 1]);
            }
        }
        lemma_records_of_ascending(rest, sigs, j, recs[0].0);
        let tail = records_of(rest, sigs, j);
        let all = records_of(recs, sigs, j);
        if resolve(sigs, recs[0].2) == Some(j) {
            assert(all == seq![(recs[0].0, recs[0].1)] + tail);
            assert forall|a: int, b: int| 0 <= a < b < all.len() implies #[trigger] all[a].0
                <= #[trigger] all[b].0 by {
                if a > 0 {
                    assert(all[a] == tail[a - 1] && all[b] == tail[b - 1]);
                } else {
                    assert(all[b] == tail[b - 1]);
                }
            }
            assert forall|k: int| 0 <= k < all.len() implies lo <= #[trigger] all[k].0 by {
                if k > 0 {
                    assert(all[k] == tail[k - 1]);
                }
            }
        } else {
            assert(all =~= tail);
        }
    }
}

/// When the timestamps current at the body's records never decrease (as when the trace's time
/// markers never decrease), every signal's changes are in non-decreasing timestamp order.
pub proof fn lemma_changes_ascending(text: Seq<char>)
    requires
        records_ascending(body_records(initial_scan(), lines(text))),
    ensures
        forall|j: int|
            0 <= j < scan_text(text).signals.len() ==> ascending(
                #[trigger] scan_text(text).signals[j].changes,
            ),
{
    lemma_changes_are_records(text);
    let st = scan_text(text);
    let recs = body_records(initial_scan(), lines(text));
    assert forall|j: int| 0 <= j < st.signals.len() implies ascending(
        #[trigger] st.signals[j].changes,
    ) by {
        lemma_records_of_ascending(recs, st.signals, j, 0);
    }
}

} // verus!
