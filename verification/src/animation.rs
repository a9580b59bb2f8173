//! The two animations: text revealed line by line, and a gauge that fills.
//!
//! An animation is a sequence of commands, taken one at a time: paint a
//! frame, pause, paint the next. It runs forward only and cannot be
//! skipped or restarted.

use vstd::prelude::*;
use vstd::string::StringExecFns;

verus! {

/// Pause after each frame of the typing animation, in milliseconds.
pub const TYPING_DELAY_MS: u64 = 200;

/// Pause after each frame of the gauge animation, in milliseconds.
pub const GAUGE_DELAY_MS: u64 = 50;

/// The highest value of the gauge.
pub const FULL_PERCENT: u8 = 100;

/// The colours a line can have.
#[derive(Clone, Copy, Debug, PartialEq, Eq, Structural)]
pub enum Tint {
    /// The terminal's own foreground colour.
    Plain,
    White,
    Yellow,
    LightBlue,
    Green,
    Red,
}

/// How a line is drawn: its colour and its weight.
#[derive(Clone, Copy, Debug, PartialEq, Eq, Structural)]
pub struct LineStyle {
    pub tint: Tint,
    pub bold: bool,
}

/// What a line is, as plain values.
pub struct LineView {
    pub text: Seq<char>,
    pub style: LineStyle,
    pub order: nat,
}

/// One line of text to reveal, with its place in the order of reveal.
#[derive(Debug)]
pub struct DisplayLine {
    text: String,
    style: LineStyle,
    order: usize,
}

impl View for DisplayLine {
    type V = LineView;

    closed spec fn view(&self) -> LineView {
        LineView { text: self.text@, style: self.style, order: self.order as nat }
    }
}

impl DisplayLine {
    /// A line with this text and style, to be revealed at place `order`
    /// (from 0). The text is taken as it is.
    pub fn new(order: usize, text: String, style: LineStyle) -> (line: DisplayLine)
        ensures
            line@ == (LineView { text: text@, style, order: order as nat }),
    {
        DisplayLine { text, style, order }
    }

    /// The text of the line.
    pub fn text(&self) -> (text: &String)
        ensures
            text@ == self@.text,
    {
        &self.text
    }

    /// How the line is drawn.
    pub fn style(&self) -> (style: LineStyle)
        ensures
            style == self@.style,
    {
        self.style
    }

    /// The place of the line in the order of reveal, from 0.
    pub fn order(&self) -> (order: usize)
        ensures
            order == self@.order,
    {
        self.order
    }
}

/// The lines of a list, each as plain values.
pub open spec fn line_views(lines: Seq<DisplayLine>) -> Seq<LineView> {
    Seq::new(lines.len(), |i: int| lines[i]@)
}

/// Whether each line carries its own position as its order of reveal.
pub open spec fn in_declared_order(lines: Seq<LineView>) -> bool {
    forall|i: int| 0 <= i < lines.len() ==> (#[trigger] lines[i]).order == i
}

/// The first `count` lines, each followed by a line break, as one text.
pub open spec fn joined_text(lines: Seq<LineView>, count: int) -> Seq<char>
    decreases count,
{
    if count <= 0 {
        Seq::empty()
    } else {
        joined_text(lines, count - 1) + lines[count - 1].text + seq!['\n']
    }
}

/// The styles of the first `count` lines.
pub open spec fn styles_of(lines: Seq<LineView>, count: int) -> Seq<LineStyle> {
    Seq::new(count as nat, |i: int| lines[i].style)
}

/// What has been revealed, as plain values: the text so far, and the style
/// of each line in it.
pub struct RevealView {
    pub content: Seq<char>,
    pub styles: Seq<LineStyle>,
}

/// What is revealed once the first `count` lines are out.
pub open spec fn revealed(lines: Seq<LineView>, count: int) -> RevealView {
    RevealView { content: joined_text(lines, count), styles: styles_of(lines, count) }
}

/// The lines revealed so far, joined into one text. It only ever grows.
#[derive(Debug)]
pub struct RevealState {
    content: String,
    styles: Vec<LineStyle>,
}

impl View for RevealState {
    type V = RevealView;

    closed spec fn view(&self) -> RevealView {
        RevealView { content: self.content@, styles: self.styles@ }
    }
}

impl RevealState {
    /// Nothing revealed yet.
    pub fn new() -> (state: RevealState)
        ensures
            state@ == (RevealView { content: Seq::empty(), styles: Seq::empty() }),
    {
        RevealState { content: String::new(), styles: Vec::new() }
    }

    /// The text revealed so far.
    pub fn content(&self) -> (content: &String)
        ensures
            content@ == self@.content,
    {
        &self.content
    }

    /// The style of each revealed line, in order.
    pub fn styles(&self) -> (styles: &Vec<LineStyle>)
        ensures
            styles@ == self@.styles,
    {
        &self.styles
    }

    /// Number of lines revealed so far.
    pub fn revealed(&self) -> (count: usize)
        ensures
            count == self@.styles.len(),
    {
        self.styles.len()
    }

    /// Reveals one more line: its text and a line break go onto the end.
    pub fn append(&mut self, line: &DisplayLine)
        ensures
            final(self)@.content == old(self)@.content + line@.text + seq!['\n'],
            final(self)@.styles == old(self)@.styles.push(line@.style),
    {
        proof {
            reveal_strlit("\n");
        }
        self.content.append(line.text.as_str());
        self.content.append("\n");
        self.styles.push(line.style);
    }

    /// A copy of the state as it is now.
    pub fn snapshot(&self) -> (copy: RevealState)
        ensures
            copy@ == self@,
    {
        RevealState { content: self.content.clone(), styles: self.styles.clone() }
    }
}

/// How far the gauge has filled, from 0 to 100. It never goes down.
#[derive(Clone, Copy, Debug)]
pub struct ProgressState {
    percent: u8,
}

impl View for ProgressState {
    type V = nat;

    closed spec fn view(&self) -> nat {
        self.percent as nat
    }
}

impl ProgressState {
    #[verifier::type_invariant]
    spec fn within_scale(self) -> bool {
        self.percent <= FULL_PERCENT
    }

    /// An empty gauge.
    pub fn new() -> (state: ProgressState)
        ensures
            state@ == 0,
    {
        ProgressState { percent: 0 }
    }

    /// The value of the gauge, at most 100.
    pub fn percent(&self) -> (percent: u8)
        ensures
            percent == self@,
            percent <= FULL_PERCENT,
    {
        proof {
            use_type_invariant(self);
        }
        self.percent
    }

    /// Whether the gauge is full.
    pub fn is_full(&self) -> (full: bool)
        ensures
            full == (self@ == FULL_PERCENT),
    {
        self.percent == FULL_PERCENT
    }

    /// Moves the gauge up by one, unless it is full.
    pub fn advance(&mut self)
        ensures
            final(self)@ == (if old(self)@ < FULL_PERCENT {
                old(self)@ + 1
            } else {
                old(self)@
            }),
    {
        proof {
            use_type_invariant(&*self);
        }
        if self.percent < FULL_PERCENT {
            self.percent = self.percent + 1;
        }
    }
}

/// What a frame shows, as plain values.
pub enum ModelView {
    Text(RevealView),
    Gauge(nat),
}

/// What a frame shows: the text revealed so far, or the gauge.
#[derive(Debug)]
pub enum Model {
    Text(RevealState),
    Gauge(ProgressState),
}

impl View for Model {
    type V = ModelView;

    open spec fn view(&self) -> ModelView {
        match self {
            Model::Text(reveal) => ModelView::Text(reveal@),
            Model::Gauge(progress) => ModelView::Gauge(progress@),
        }
    }
}

/// A command of an animation, as plain values.
pub enum CommandView {
    Render(ModelView),
    Pause(u64),
    Finished,
}

/// What an animation asks for next.
#[derive(Debug)]
pub enum Command {
    /// Paint one frame that shows this.
    Render(Model),
    /// Pause for so many milliseconds.
    Pause(u64),
    /// Nothing: the animation is over.
    Finished,
}

impl View for Command {
    type V = CommandView;

    open spec fn view(&self) -> CommandView {
        match self {
            Command::Render(model) => CommandView::Render(model@),
            Command::Pause(ms) => CommandView::Pause(*ms),
            Command::Finished => CommandView::Finished,
        }
    }
}

/// The typing animation, as plain values.
pub struct TypingView {
    /// The declared lines.
    pub lines: Seq<LineView>,
    /// The pause after each frame, in milliseconds.
    pub delay_ms: u64,
    /// How many lines are out.
    pub shown: nat,
    /// Whether the last frame still waits for its pause.
    pub pausing: bool,
}

/// The typing animation before its first command.
pub open spec fn typing_start(lines: Seq<LineView>, delay_ms: u64) -> TypingView {
    TypingView { lines, delay_ms, shown: 0, pausing: false }
}

/// One step of the typing animation: the state after it, and the command it
/// gives. A frame that reveals the next line is followed by a pause; after
/// the pause of the last line the animation is over and stays so.
pub open spec fn typing_step(state: TypingView) -> (TypingView, CommandView) {
    if state.pausing {
        (TypingView { pausing: false, ..state }, CommandView::Pause(state.delay_ms))
    } else if state.shown < state.lines.len() {
        (
            TypingView { shown: state.shown + 1, pausing: true, ..state },
            CommandView::Render(ModelView::Text(revealed(state.lines, (state.shown + 1) as int))),
        )
    } else {
        (state, CommandView::Finished)
    }
}

/// Declared lines, revealed one per frame with a pause after each.
#[derive(Debug)]
pub struct TypingAnimation {
    lines: Vec<DisplayLine>,
    delay_ms: u64,
    reveal: RevealState,
    pausing: bool,
}

impl View for TypingAnimation {
    type V = TypingView;

    closed spec fn view(&self) -> TypingView {
        TypingView {
            lines: line_views(self.lines@),
            delay_ms: self.delay_ms,
            shown: self.reveal@.styles.len(),
            pausing: self.pausing,
        }
    }
}

/// Checks that each line carries its position as its order.
pub fn lines_in_declared_order(lines: &Vec<DisplayLine>) -> (ordered: bool)
    ensures
        ordered == in_declared_order(line_views(lines@)),
{
    let mut i: usize = 0;
    while i < lines.len()
        invariant
            i <= lines.len(),
            forall|j: int| 0 <= j < i ==> (#[trigger] line_views(lines@)[j]).order == j,
        decreases lines.len() - i,
    {
        if lines[i].order() != i {
            assert(line_views(lines@)[i as int].order != i);
            return false;
        }
        i = i + 1;
    }
    true
}

/// Numbers the texts of a list in order and gives each the same style.
pub fn declare_lines(texts: &Vec<String>, style: LineStyle) -> (lines: Vec<DisplayLine>)
    ensures
        lines.len() == texts.len(),
        in_declared_order(line_views(lines@)),
        forall|i: int|
            0 <= i < texts.len() ==> (#[trigger] lines[i])@ == (LineView {
                text: texts[i]@,
                style,
                order: i as nat,
            }),
{
    let mut lines: Vec<DisplayLine> = Vec::new();
    let mut i: usize = 0;
    while i < texts.len()
        invariant
            i <= texts.len(),
            lines.len() == i,
            forall|j: int|
                0 <= j < i ==> (#[trigger] lines[j])@ == (LineView {
                    text: texts[j]@,
                    style,
                    order: j as nat,
                }),
        decreases texts.len() - i,
    {
        lines.push(DisplayLine::new(i, texts[i].clone(), style));
        i = i + 1;
    }
    lines
}

impl TypingAnimation {
    /// What holds of every typing animation: the lines are in declared
    /// order, and what is revealed is the first so many of them.
    pub closed spec fn wf(&self) -> bool {
        &&& in_declared_order(line_views(self.lines@))
        &&& self.reveal@.styles.len() <= self.lines@.len()
        &&& self.reveal@ == revealed(line_views(self.lines@), self.reveal@.styles.len() as int)
        &&& self.pausing ==> self.reveal@.styles.len() > 0
    }

    /// An animation of these lines with this pause after each frame, if
    /// the lines are in declared order.
    pub fn new(lines: Vec<DisplayLine>, delay_ms: u64) -> (animation: Option<TypingAnimation>)
        ensures
            animation.is_some() == in_declared_order(line_views(lines@)),
            animation matches Some(a) ==> a.wf() && a@ == typing_start(line_views(lines@), delay_ms),
    {
        if !lines_in_declared_order(&lines) {
            return None;
        }
        let animation = TypingAnimation {
            lines,
            delay_ms,
            reveal: RevealState::new(),
            pausing: false,
        };
        assert(animation.reveal@.styles =~= styles_of(line_views(animation.lines@), 0));
        Some(animation)
    }

    /// What is revealed so far.
    pub fn reveal_state(&self) -> (state: &RevealState)
        requires
            self.wf(),
        ensures
            state@ == revealed(self@.lines, self@.shown as int),
    {
        &self.reveal
    }

    /// Whether every frame and every pause has been handed out.
    pub fn is_finished(&self) -> (finished: bool)
        requires
            self.wf(),
        ensures
            finished == (typing_step(self@).1 == CommandView::Finished),
    {
        !self.pausing && self.reveal.revealed() >= self.lines.len()
    }

    /// Hands out the next command.
    pub fn advance(&mut self) -> (command: Command)
        requires
            old(self).wf(),
        ensures
            final(self).wf(),
            (final(self)@, command@) == typing_step(old(self)@),
    {
        if self.pausing {
            self.pausing = false;
            return Command::Pause(self.delay_ms);
        }
        let shown: usize = self.reveal.revealed();
        if shown < self.lines.len() {
            self.reveal.append(&self.lines[shown]);
            self.pausing = true;
            proof {
                assert(self.reveal@.styles =~= styles_of(line_views(self.lines@), shown + 1));
            }
            Command::Render(Model::Text(self.reveal.snapshot()))
        } else {
            Command::Finished
        }
    }
}

/// The gauge animation, as plain values.
pub struct GaugeView {
    /// The pause after each frame, in milliseconds.
    pub delay_ms: u64,
    /// How many frames are out.
    pub painted: nat,
    /// Whether the last frame still waits for its pause.
    pub pausing: bool,
}

/// The gauge animation before its first command.
pub open spec fn gauge_start(delay_ms: u64) -> GaugeView {
    GaugeView { delay_ms, painted: 0, pausing: false }
}

/// One step of the gauge animation: the state after it, and the command it
/// gives. The frames show 0, 1, 2 and so on up to 100, each followed by a
/// pause; after the pause of 100 the animation is over and stays so.
pub open spec fn gauge_step(state: GaugeView) -> (GaugeView, CommandView) {
    if state.pausing {
        (GaugeView { pausing: false, ..state }, CommandView::Pause(state.delay_ms))
    } else if state.painted <= FULL_PERCENT {
        (
            GaugeView { painted: state.painted + 1, pausing: true, ..state },
            CommandView::Render(ModelView::Gauge(state.painted)),
        )
    } else {
        (state, CommandView::Finished)
    }
}

/// A gauge that fills from 0 to 100, one step per frame with a pause after
/// each.
#[derive(Debug)]
pub struct GaugeAnimation {
    delay_ms: u64,
    progress: ProgressState,
    painted: u8,
    pausing: bool,
}

impl View for GaugeAnimation {
    type V = GaugeView;

    closed spec fn view(&self) -> GaugeView {
        GaugeView { delay_ms: self.delay_ms, painted: self.painted as nat, pausing: self.pausing }
    }
}

impl GaugeAnimation {
    /// What holds of every gauge animation: the gauge stands at the value
    /// of the last frame.
    pub closed spec fn wf(&self) -> bool {
        &&& self.painted <= FULL_PERCENT + 1
        &&& self.progress@ == (if self.painted == 0 {
            0
        } else {
            self.painted - 1
        })
        &&& self.pausing ==> self.painted > 0
    }

    /// A gauge animation with this pause after each frame.
    pub fn new(delay_ms: u64) -> (animation: GaugeAnimation)
        ensures
            animation.wf(),
            animation@ == gauge_start(delay_ms),
    {
        GaugeAnimation { delay_ms, progress: ProgressState::new(), painted: 0, pausing: false }
    }

    /// Where the gauge stands: at the value of the last frame, or at 0
    /// before the first.
    pub fn progress(&self) -> (progress: ProgressState)
        requires
            self.wf(),
        ensures
            progress@ == (if self@.painted == 0 {
                0
            } else {
                self@.painted - 1
            }),
    {
        self.progress
    }

    /// Whether every frame and every pause has been handed out.
    pub fn is_finished(&self) -> (finished: bool)
        requires
            self.wf(),
        ensures
            finished == (gauge_step(self@).1 == CommandView::Finished),
    {
        !self.pausing && self.painted > FULL_PERCENT
    }

    /// Hands out the next command.
    pub fn advance(&mut self) -> (command: Command)
        requires
            old(self).wf(),
        ensures
            final(self).wf(),
            (final(self)@, command@) == gauge_step(old(self)@),
    {
        if self.pausing {
            self.pausing = false;
            return Command::Pause(self.delay_ms);
        }
        if self.painted <= FULL_PERCENT {
            if self.painted > 0 {
                self.progress.advance();
            }
            self.painted = self.painted + 1;
            self.pausing = true;
            Command::Render(Model::Gauge(self.progress))
        } else {
            Command::Finished
        }
    }
}

/// Either animation, as plain values.
pub enum AnimationView {
    Typing(TypingView),
    Gauge(GaugeView),
}

/// One step of either animation.
pub open spec fn animation_step(state: AnimationView) -> (AnimationView, CommandView) {
    match state {
        AnimationView::Typing(typing) => (
            AnimationView::Typing(typing_step(typing).0),
            typing_step(typing).1,
        ),
        AnimationView::Gauge(gauge) => (
            AnimationView::Gauge(gauge_step(gauge).0),
            gauge_step(gauge).1,
        ),
    }
}

/// Either animation.
#[derive(Debug)]
pub enum Animation {
    Typing(TypingAnimation),
    Gauge(GaugeAnimation),
}

impl View for Animation {
    type V = AnimationView;

    open spec fn view(&self) -> AnimationView {
        match self {
            Animation::Typing(typing) => AnimationView::Typing(typing@),
            Animation::Gauge(gauge) => AnimationView::Gauge(gauge@),
        }
    }
}

impl Animation {
    /// What holds of every animation: what holds of its kind.
    pub open spec fn wf(&self) -> bool {
        match self {
            Animation::Typing(typing) => typing.wf(),
            Animation::Gauge(gauge) => gauge.wf(),
        }
    }

    /// Hands out the next command.
    pub fn advance(&mut self) -> (command: Command)
        requires
            old(self).wf(),
        ensures
            final(self).wf(),
            (final(self)@, command@) == animation_step(old(self)@),
    {
        match self {
            Animation::Typing(typing) => typing.advance(),
            Animation::Gauge(gauge) => gauge.advance(),
        }
    }
}

/// The typing animation after so many steps.
pub open spec fn typing_after(state: TypingView, steps: nat) -> TypingView
    decreases steps,
{
    if steps == 0 {
        state
    } else {
        typing_step(typing_after(state, (steps - 1) as nat)).0
    }
}

/// The command at place `n` (from 0) of the typing animation of `lines`,
/// written out: a frame at each even place, showing one more line than the
/// frame before it; a pause at each odd place; no more once each line has
/// had its frame and its pause.
pub open spec fn typing_schedule(lines: Seq<LineView>, delay_ms: u64, n: nat) -> CommandView {
    if n >= 2 * lines.len() {
        CommandView::Finished
    } else if n % 2 == 0 {
        CommandView::Render(ModelView::Text(revealed(lines, (n / 2 + 1) as int)))
    } else {
        CommandView::Pause(delay_ms)
    }
}

/// Where the typing animation of `lines` stands after `n` steps.
pub proof fn lemma_typing_after(lines: Seq<LineView>, delay_ms: u64, n: nat)
    ensures
        typing_after(typing_start(lines, delay_ms), n) == (TypingView {
            lines,
            delay_ms,
            shown: if n >= 2 * lines.len() {
                lines.len()
            } else {
                ((n + 1) / 2) as nat
            },
            pausing: n < 2 * lines.len() && n % 2 == 1,
        }),
    decreases n,
{
    if n > 0 {
        lemma_typing_after(lines, delay_ms, (n - 1) as nat);
    }
}

/// Run from its start, the typing animation gives the commands of its
/// schedule, in order. So an animation of N lines paints exactly N frames,
/// frame k shows exactly the first k lines in declared order, each
/// followed by a line break, and each frame is followed by its pause.
pub proof fn lemma_typing_follows_schedule(lines: Seq<LineView>, delay_ms: u64, n: nat)
    ensures
        typing_step(typing_after(typing_start(lines, delay_ms), n)).1 == typing_schedule(
            lines,
            delay_ms,
            n,
        ),
{
    lemma_typing_after(lines, delay_ms, n);
}

/// Each frame of the typing animation shows what the frames before it
/// showed, and more: the text only grows, at its end.
pub proof fn lemma_revealed_text_grows(lines: Seq<LineView>, earlier: int, later: int)
    requires
        0 <= earlier < later,
    ensures
        joined_text(lines, earlier).len() < joined_text(lines, later).len(),
        joined_text(lines, earlier) == joined_text(lines, later).subrange(
            0,
            joined_text(lines, earlier).len() as int,
        ),
    decreases later,
{
    if earlier < later - 1 {
        lemma_revealed_text_grows(lines, earlier, later - 1);
    }
}

/// The gauge animation after so many steps.
pub open spec fn gauge_after(state: GaugeView, steps: nat) -> GaugeView
    decreases steps,
{
    if steps == 0 {
        state
    } else {
        gauge_step(gauge_after(state, (steps - 1) as nat)).0
    }
}

/// The command at place `n` (from 0) of the gauge animation, written out:
/// a frame at each even place, showing one more than the frame before it,
/// from 0 to 100; a pause at each odd place; no more after the 101 frames
/// and their pauses.
pub open spec fn gauge_schedule(delay_ms: u64, n: nat) -> CommandView {
    if n >= 2 * (FULL_PERCENT + 1) {
        CommandView::Finished
    } else if n % 2 == 0 {
        CommandView::Render(ModelView::Gauge(n / 2))
    } else {
        CommandView::Pause(delay_ms)
    }
}

/// Where the gauge animation stands after `n` steps.
pub proof fn lemma_gauge_after(delay_ms: u64, n: nat)
    ensures
        gauge_after(gauge_start(delay_ms), n) == (GaugeView {
            delay_ms,
            painted: if n >= 2 * (FULL_PERCENT + 1) {
                (FULL_PERCENT + 1) as nat
            } else {
                ((n + 1) / 2) as nat
            },
            pausing: n < 2 * (FULL_PERCENT + 1) && n % 2 == 1,
        }),
    decreases n,
{
    if n > 0 {
        lemma_gauge_after(delay_ms, (n - 1) as nat);
    }
}

/// Run from its start, the gauge animation gives the commands of its
/// schedule, in order. So it paints exactly 101 frames, which show 0, 1,
/// 2 and so on to 100 with none left out and none twice, and each frame
/// is followed by its pause.
pub proof fn lemma_gauge_follows_schedule(delay_ms: u64, n: nat)
    ensures
        gauge_step(gauge_after(gauge_start(delay_ms), n)).1 == gauge_schedule(delay_ms, n),
{
    lemma_gauge_after(delay_ms, n);
}

/// Either animation after so many steps.
pub open spec fn animation_after(state: AnimationView, steps: nat) -> AnimationView
    decreases steps,
{
    if steps == 0 {
        state
    } else {
        animation_step(animation_after(state, (steps - 1) as nat)).0
    }
}

/// The steps of an animation are those of its kind.
pub proof fn lemma_animation_after(state: AnimationView, steps: nat)
    ensures
        animation_after(state, steps) == match state {
            AnimationView::Typing(typing) => AnimationView::Typing(typing_after(typing, steps)),
            AnimationView::Gauge(gauge) => AnimationView::Gauge(gauge_after(gauge, steps)),
        },
    decreases steps,
{
    if steps > 0 {
        lemma_animation_after(state, (steps - 1) as nat);
    }
}

} // verus!
