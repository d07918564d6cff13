//! Collecting provider results and composing them into display lines.

use vstd::prelude::*;
use crate::cfg::Config;

verus! {

/// Left padding, in columns, of text lines that fall below a drawn logo.
pub const LOGO_OVERFLOW_OFFSET: usize = 46;

/// Supported distros.
#[derive(Clone, Copy, Debug, PartialEq, Eq, Structural, PartialOrd, Ord, Hash)]
pub enum Distro {
    NixOS,
    Fedora,
}

/// Kinds of built-in output.
#[derive(Clone, Copy, Debug, PartialEq, Eq, Structural, PartialOrd, Ord, Hash)]
pub enum OutputType {
    /// Draw the distro logo
    Distro,
    /// OS in the format: DistroName Version (Edition) Architecture
    OS,
    /// Kernel release, as in 6.6.32
    Kernel,
    /// System uptime in the format: XXhr XXm XXs
    Uptime,
}

/// Appends `line` to the row at `*line_ind` when that row exists (text beside a
/// logo row), otherwise pushes a new row `line_pfx + line`; then moves to the
/// next row.
pub fn add_line(line: &str, line_pfx: &str, lines: &mut Vec<String>, line_ind: &mut usize)
    requires
        *old(line_ind) <= old(lines)@.len(),
        *old(line_ind) < usize::MAX,
    ensures
        *final(line_ind) == *old(line_ind) + 1,
        *old(line_ind) < old(lines)@.len() ==> final(lines).deep_view() == old(
            lines,
        ).deep_view().update(*old(line_ind) as int, old(lines).deep_view()[*old(line_ind) as int] + line@),
        *old(line_ind) == old(lines)@.len() ==> final(lines).deep_view() == old(
            lines,
        ).deep_view().push(line_pfx@ + line@),
{
    let i = *line_ind;
    if i < lines.len() {
        let mut row = lines[i].clone();
        row.append(line);
        lines.set(i, row);
        assert(lines.deep_view() =~= old(lines).deep_view().update(i as int, old(lines).deep_view()[i as int] + line@));
    } else {
        let mut row = String::from_str(line_pfx);
        row.append(line);
        lines.push(row);
        assert(lines.deep_view() =~= old(lines).deep_view().push(line_pfx@ + line@));
    }
    *line_ind = i + 1;
}


/// The terminal escape written after each logo row.
pub const COLOR_RESET: &'static str = "\x1B[37m";

/// What a `ResultSet` holds: one optional text per built-in kind and the
/// plugin texts in discovery order.
pub struct ResultView {
    pub logo: Option<Seq<char>>,
    pub os: Option<Seq<char>>,
    pub kernel: Option<Seq<char>>,
    pub uptime: Option<Seq<char>>,
    pub plugins: Seq<Seq<char>>,
}

/// The one-element sequence of a present text, or nothing.
pub open spec fn opt_row(t: Option<Seq<char>>) -> Seq<Seq<char>> {
    match t {
        Some(s) => seq![s],
        None => Seq::empty(),
    }
}

impl ResultView {
    pub open spec fn empty() -> ResultView {
        ResultView { logo: None, os: None, kernel: None, uptime: None, plugins: Seq::empty() }
    }

    pub open spec fn text_for(self, k: OutputType) -> Option<Seq<char>> {
        match k {
            OutputType::Distro => self.logo,
            OutputType::OS => self.os,
            OutputType::Kernel => self.kernel,
            OutputType::Uptime => self.uptime,
        }
    }

    /// Every text held is non-empty.
    pub open spec fn wf(self) -> bool {
        &&& forall|k: OutputType| #[trigger] self.text_for(k) is Some ==> self.text_for(k)->0.len() > 0
        &&& forall|i: int| 0 <= i < self.plugins.len() ==> #[trigger] self.plugins[i].len() > 0
    }

    /// The view after a provider of kind `k` returned `t`: an empty text
    /// changes nothing.
    pub open spec fn with(self, k: OutputType, t: Seq<char>) -> ResultView {
        if t.len() == 0 {
            self
        } else {
            match k {
                OutputType::Distro => ResultView { logo: Some(t), ..self },
                OutputType::OS => ResultView { os: Some(t), ..self },
                OutputType::Kernel => ResultView { kernel: Some(t), ..self },
                OutputType::Uptime => ResultView { uptime: Some(t), ..self },
            }
        }
    }

    /// The view after a plugin returned `t`: an empty text changes nothing.
    pub open spec fn with_plugin(self, t: Seq<char>) -> ResultView {
        if t.len() == 0 {
            self
        } else {
            ResultView { plugins: self.plugins.push(t), ..self }
        }
    }

    /// The built-in textual fields, in their declared order.
    pub open spec fn builtin_fields(self) -> Seq<Seq<char>> {
        opt_row(self.os) + opt_row(self.kernel) + opt_row(self.uptime)
    }

    /// All textual fields: built-ins first, then plugins.
    pub open spec fn fields(self) -> Seq<Seq<char>> {
        self.builtin_fields() + self.plugins
    }
}

proof fn lemma_with_wf(v: ResultView, k: OutputType, t: Seq<char>)
    requires
        v.wf(),
    ensures
        v.with(k, t).wf(),
{
    let w = v.with(k, t);
    assert forall|k2: OutputType| #[trigger] w.text_for(k2) is Some implies w.text_for(k2)->0.len() > 0 by {
        if k2 != k || t.len() == 0 {
            assert(w.text_for(k2) == v.text_for(k2));
        }
    }
}

/// Field-keyed results of one aggregation pass.
pub struct ResultSet {
    logo: Option<String>,
    os: Option<String>,
    kernel: Option<String>,
    uptime: Option<String>,
    plugins: Vec<String>,
}

pub open spec fn opt_view(t: Option<String>) -> Option<Seq<char>> {
    match t {
        Some(s) => Some(s@),
        None => None,
    }
}

impl View for ResultSet {
    type V = ResultView;

    closed spec fn view(&self) -> ResultView {
        ResultView {
            logo: opt_view(self.logo),
            os: opt_view(self.os),
            kernel: opt_view(self.kernel),
            uptime: opt_view(self.uptime),
            plugins: self.plugins.deep_view(),
        }
    }
}

impl ResultSet {
    pub fn new() -> (r: ResultSet)
        ensures
            r@ == ResultView::empty(),
    {
        let r = ResultSet { logo: None, os: None, kernel: None, uptime: None, plugins: Vec::new() };
        assert(r@.plugins =~= Seq::<Seq<char>>::empty());
        r
    }

    /// Records what the provider of kind `kind` returned; empty text is dropped.
    pub fn insert(&mut self, kind: OutputType, text: String)
        requires
            old(self)@.wf(),
        ensures
            final(self)@ == old(self)@.with(kind, text@),
            final(self)@.wf(),
    {
        if text.as_str().is_empty() {
            return;
        }
        proof {
            lemma_with_wf(self@, kind, text@);
        }
        match kind {
            OutputType::Distro => self.logo = Some(text),
            OutputType::OS => self.os = Some(text),
            OutputType::Kernel => self.kernel = Some(text),
            OutputType::Uptime => self.uptime = Some(text),
        }
    }

    /// Records what a plugin returned; empty text is dropped.
    pub fn push_plugin(&mut self, text: String)
        requires
            old(self)@.wf(),
        ensures
            final(self)@ == old(self)@.with_plugin(text@),
            final(self)@.wf(),
    {
        if text.as_str().is_empty() {
            return;
        }
        self.plugins.push(text);
        assert(self@.plugins =~= old(self)@.plugins.push(text@));
        assert forall|i: int| 0 <= i < self@.plugins.len() implies #[trigger] self@.plugins[i].len() > 0 by {
            if i < old(self)@.plugins.len() {
                assert(self@.plugins[i] == old(self)@.plugins[i]);
            }
        }
        assert forall|k: OutputType| #[trigger] self@.text_for(k) is Some implies self@.text_for(k)->0.len() > 0 by {
            assert(self@.text_for(k) == old(self)@.text_for(k));
        }
    }
}


/// The view after the built-in results `outs` were recorded in order; a `None`
/// stands for a task that failed.
pub open spec fn collect_builtins(outs: Seq<Option<(OutputType, String)>>) -> ResultView
    decreases outs.len(),
{
    if outs.len() == 0 {
        ResultView::empty()
    } else {
        let prev = collect_builtins(outs.drop_last());
        match outs.last() {
            Some((k, t)) => prev.with(k, t@),
            None => prev,
        }
    }
}

/// The view after the plugin results `outs` were recorded in order onto `v`.
pub open spec fn collect_plugins(v: ResultView, outs: Seq<Option<String>>) -> ResultView
    decreases outs.len(),
{
    if outs.len() == 0 {
        v
    } else {
        let prev = collect_plugins(v, outs.drop_last());
        match outs.last() {
            Some(t) => prev.with_plugin(t@),
            None => prev,
        }
    }
}

/// The result set of one pass: built-in results, then plugin results.
pub open spec fn collected(
    builtins: Seq<Option<(OutputType, String)>>,
    plugins: Seq<Option<String>>,
) -> ResultView {
    collect_plugins(collect_builtins(builtins), plugins)
}

/// Gathers the results of the built-in and plugin tasks of one pass. A task
/// that failed (`None`) or returned empty text contributes nothing.
pub fn collect_results(
    builtins: Vec<Option<(OutputType, String)>>,
    plugins: Vec<Option<String>>,
) -> (r: ResultSet)
    ensures
        r@ == collected(builtins@, plugins@),
        r@.wf(),
{
    let mut r = ResultSet::new();
    let mut i: usize = 0;
    while i < builtins.len()
        invariant
            i <= builtins@.len(),
            r@ == collect_builtins(builtins@.take(i as int)),
            r@.wf(),
        decreases builtins@.len() - i,
    {
        assert(builtins@.take(i as int + 1).drop_last() =~= builtins@.take(i as int));
        match &builtins[i] {
            Some((k, t)) => r.insert(*k, t.clone()),
            None => {},
        }
        i += 1;
    }
    assert(builtins@.take(i as int) =~= builtins@);
    let ghost base = r@;
    let mut j: usize = 0;
    while j < plugins.len()
        invariant
            j <= plugins@.len(),
            base == collect_builtins(builtins@),
            r@ == collect_plugins(base, plugins@.take(j as int)),
            r@.wf(),
        decreases plugins@.len() - j,
    {
        assert(plugins@.take(j as int + 1).drop_last() =~= plugins@.take(j as int));
        match &plugins[j] {
            Some(t) => r.push_plugin(t.clone()),
            None => {},
        }
        j += 1;
    }
    assert(plugins@.take(j as int) =~= plugins@);
    r
}


/// The rows of a text, as `str::lines` splits them.
pub uninterp spec fn lines_of(s: Seq<char>) -> Seq<Seq<char>>;

/// Relies on `str::lines`: the rows of a text, without their line endings.
#[verifier::external_body]
fn split_lines(s: &str) -> (r: Vec<String>)
    ensures
        r.deep_view() == lines_of(s@),
{
    s.lines().map(String::from).collect()
}

/// `n` spaces.
pub open spec fn padding(n: nat) -> Seq<char> {
    Seq::new(n, |i: int| ' ')
}

/// Rows, each followed by the color reset.
pub open spec fn reset_rows(raw: Seq<Seq<char>>) -> Seq<Seq<char>> {
    raw.map_values(|row: Seq<char>| row + COLOR_RESET@)
}

/// The logo rows of `v`, each followed by the color reset; none without a logo.
pub open spec fn logo_rows(v: ResultView) -> Seq<Seq<char>> {
    match v.logo {
        Some(l) => reset_rows(lines_of(l)),
        None => Seq::empty(),
    }
}

/// What starts a row below the logo: the overflow padding when a logo is
/// drawn, nothing otherwise.
pub open spec fn line_prefix(v: ResultView) -> Seq<char> {
    start_prefix(v.logo is Some)
}

/// The prefix of rows below the logo: padding when there is a logo.
pub open spec fn start_prefix(has_logo: bool) -> Seq<char> {
    if has_logo {
        padding(LOGO_OVERFLOW_OFFSET as nat)
    } else {
        Seq::empty()
    }
}

/// Field `i` goes beside row `i` where that row exists, and on a new row that
/// starts with `pfx` otherwise; rows without a field stay as they are.
pub open spec fn merge_rows(rows: Seq<Seq<char>>, fields: Seq<Seq<char>>, pfx: Seq<char>) -> Seq<Seq<char>> {
    let n = if rows.len() >= fields.len() { rows.len() } else { fields.len() };
    Seq::new(
        n,
        |i: int|
            if i < rows.len() {
                if i < fields.len() { rows[i] + fields[i] } else { rows[i] }
            } else {
                pfx + fields[i]
            },
    )
}

/// The display lines of a result set.
pub open spec fn display_lines(v: ResultView) -> Seq<Seq<char>> {
    merge_rows(logo_rows(v), v.fields(), line_prefix(v))
}

proof fn lemma_merge_push(rows: Seq<Seq<char>>, f: Seq<Seq<char>>, pfx: Seq<char>, x: Seq<char>)
    ensures
        f.len() < rows.len() ==> merge_rows(rows, f.push(x), pfx) == merge_rows(rows, f, pfx).update(
            f.len() as int,
            merge_rows(rows, f, pfx)[f.len() as int] + x,
        ),
        f.len() >= rows.len() ==> merge_rows(rows, f.push(x), pfx) == merge_rows(rows, f, pfx).push(pfx + x),
{
    let a = merge_rows(rows, f.push(x), pfx);
    let b = merge_rows(rows, f, pfx);
    if f.len() < rows.len() {
        assert(a =~~= b.update(f.len() as int, b[f.len() as int] + x));
    } else {
        assert(a =~~= b.push(pfx + x));
    }
}

/// Rows, each followed by the color reset.
fn with_reset(raw: &Vec<String>) -> (r: Vec<String>)
    ensures
        r.deep_view() == reset_rows(raw.deep_view()),
{
    let mut r: Vec<String> = Vec::new();
    let mut i: usize = 0;
    while i < raw.len()
        invariant
            i <= raw@.len(),
            r.deep_view() =~= reset_rows(raw.deep_view().take(i as int)),
        decreases raw@.len() - i,
    {
        let ghost prev = r.deep_view();
        let mut row = raw[i].clone();
        row.append(COLOR_RESET);
        r.push(row);
        assert(r.deep_view() =~= prev.push(raw.deep_view()[i as int] + COLOR_RESET@));
        assert(raw.deep_view().take(i as int + 1) =~= raw.deep_view().take(i as int).push(raw.deep_view()[i as int]));
        i += 1;
    }
    assert(raw.deep_view().take(i as int) =~= raw.deep_view());
    r
}

/// A string of `n` spaces.
fn pad_text(n: usize) -> (r: String)
    ensures
        r@ == padding(n as nat),
{
    let mut r = String::new();
    let mut i: usize = 0;
    proof {
        reveal_strlit(" ");
    }
    while i < n
        invariant
            i <= n,
            r@ =~= padding(i as nat),
            " "@ == seq![' '],
        decreases n - i,
    {
        r.append(" ");
        i += 1;
    }
    r
}

impl ResultSet {
    /// The textual fields, built-ins in declared order, then plugins.
    pub fn field_texts(&self) -> (r: Vec<String>)
        ensures
            r.deep_view() == self@.fields(),
    {
        let mut r: Vec<String> = Vec::new();
        match &self.os {
            Some(t) => r.push(t.clone()),
            None => {},
        }
        match &self.kernel {
            Some(t) => r.push(t.clone()),
            None => {},
        }
        match &self.uptime {
            Some(t) => r.push(t.clone()),
            None => {},
        }
        let ghost b = r.deep_view();
        assert(b =~= self@.builtin_fields());
        let mut i: usize = 0;
        while i < self.plugins.len()
            invariant
                i <= self.plugins@.len(),
                b == self@.builtin_fields(),
                r.deep_view() =~= b + self.plugins.deep_view().take(i as int),
            decreases self.plugins@.len() - i,
        {
            let ghost prev = r.deep_view();
            r.push(self.plugins[i].clone());
            assert(r.deep_view() =~= prev.push(self.plugins.deep_view()[i as int]));
            assert(self.plugins.deep_view().take(i as int + 1) =~= self.plugins.deep_view().take(i as int).push(self.plugins.deep_view()[i as int]));
            i += 1;
        }
        assert(self.plugins.deep_view().take(i as int) =~= self@.plugins);
        r
    }
}

/// The rows that `overlay` starts from: the logo rows with the color reset.
pub open spec fn start_rows(logo: Option<Seq<Seq<char>>>) -> Seq<Seq<char>> {
    match logo {
        Some(raw) => reset_rows(raw),
        None => Seq::empty(),
    }
}

/// The rows held, if any.
pub open spec fn rows_view(o: Option<Vec<String>>) -> Option<Seq<Seq<char>>> {
    match o {
        Some(r) => Some(r.deep_view()),
        None => None,
    }
}

/// Lays the textual fields over the logo's rows (`None` without a logo): each
/// logo row gets the color reset, field `i` goes beside row `i` where that row
/// exists, and on a new row padded past the logo otherwise.
pub fn overlay(logo_rows: Option<Vec<String>>, fields: &Vec<String>) -> (lines: Vec<String>)
    ensures
        lines.deep_view() == merge_rows(
            start_rows(rows_view(logo_rows)),
            fields.deep_view(),
            start_prefix(logo_rows is Some),
        ),
{
    let ghost rows = start_rows(rows_view(logo_rows));
    let mut lines: Vec<String>;
    let pfx: String;
    match &logo_rows {
        Some(raw) => {
            lines = with_reset(raw);
            pfx = pad_text(LOGO_OVERFLOW_OFFSET);
        },
        None => {
            lines = Vec::new();
            pfx = String::new();
        },
    }
    assert(lines.deep_view() =~~= merge_rows(rows, fields.deep_view().take(0), pfx@));
    let mut ind: usize = 0;
    while ind < fields.len()
        invariant
            ind <= fields@.len(),
            pfx@ == start_prefix(logo_rows is Some),
            lines.deep_view() == merge_rows(rows, fields.deep_view().take(ind as int), pfx@),
        decreases fields@.len() - ind,
    {
        let ghost f = fields.deep_view().take(ind as int);
        proof {
            lemma_merge_push(rows, f, pfx@, fields.deep_view()[ind as int]);
            assert(fields.deep_view().take(ind as int + 1) =~= f.push(fields.deep_view()[ind as int]));
            assert(lines@.len() == lines.deep_view().len());
        }
        add_line(fields[ind].as_str(), pfx.as_str(), &mut lines, &mut ind);
    }
    assert(fields.deep_view().take(ind as int) =~= fields.deep_view());
    lines
}

/// Composes the display lines: the logo rows when a logo is present, then each
/// textual field beside the next logo row, or on a new padded row below it.
pub fn compose_lines(rs: &ResultSet) -> (lines: Vec<String>)
    ensures
        lines.deep_view() == display_lines(rs@),
{
    let raw = match &rs.logo {
        Some(l) => Some(split_lines(l.as_str())),
        None => None,
    };
    let fields = rs.field_texts();
    overlay(raw, &fields)
}

/// `k` alone when `on`, nothing otherwise.
pub open spec fn kind_if(on: bool, k: OutputType) -> Seq<OutputType> {
    if on {
        seq![k]
    } else {
        Seq::empty()
    }
}

/// The built-in kinds that `c` turns on, in declared order.
pub open spec fn selected(c: Config) -> Seq<OutputType> {
    kind_if(c.show_distro, OutputType::Distro) + kind_if(c.show_os, OutputType::OS) + kind_if(
        c.show_kernel,
        OutputType::Kernel,
    ) + kind_if(c.show_uptime, OutputType::Uptime)
}

/// The built-in providers to run for `cfg`, in declared order.
pub fn selected_kinds(cfg: &Config) -> (r: Vec<OutputType>)
    ensures
        r@ == selected(*cfg),
{
    let mut r: Vec<OutputType> = Vec::new();
    if cfg.show_distro {
        r.push(OutputType::Distro);
    }
    if cfg.show_os {
        r.push(OutputType::OS);
    }
    if cfg.show_kernel {
        r.push(OutputType::Kernel);
    }
    if cfg.show_uptime {
        r.push(OutputType::Uptime);
    }
    assert(r@ =~= selected(*cfg));
    r
}

} // verus!
