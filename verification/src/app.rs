//! The dispatcher: compositor events in, bar operations out.
//!
//! The dispatcher owns the bars of all live outputs, in the order their
//! outputs appeared. It takes four events from the compositor (an output
//! appeared, an output went away, a layer surface was sized, a layer surface
//! was closed) and one from the graphics side, the answer to a request for a
//! texture to draw on.

use vstd::prelude::*;

use crate::bar::{Bar, BarView, LayerSurfaceId, OutputId};
use crate::error::{RenderError, SurfaceError};
use crate::renderer::{FramePlan, Renderer, Resize, SurfaceRendererView};
use crate::structures::Globals;
use crate::surface::SurfaceCapabilities;

verus! {

/// Height of a bar in pixels, and of the strip it reserves on its output.
pub const BAR_HEIGHT: u32 = 30;

/// Width a bar's surface is configured with before the compositor sizes it.
pub const INITIAL_WIDTH: u32 = 100;

/// Height a bar's surface is configured with before the compositor sizes it.
pub const INITIAL_HEIGHT: u32 = 100;

/// The stacking layer of a layer surface.
#[derive(Copy, Clone, Debug, PartialEq, Eq, Structural)]
pub enum Layer {
    Background,
    Bottom,
    Top,
    Overlay,
}

/// Whether a layer surface takes keyboard focus.
#[derive(Copy, Clone, Debug, PartialEq, Eq, Structural)]
pub enum KeyboardInteractivity {
    /// The surface never takes the keyboard.
    Never,
    /// The surface takes the keyboard for itself.
    Exclusive,
    /// The surface takes the keyboard when the user turns to it.
    OnDemand,
}

/// The layer surface to ask the compositor for when an output appears. A
/// width of 0 leaves the width to the compositor.
#[derive(Copy, Clone, Debug, PartialEq, Eq)]
pub struct LayerRequest {
    pub output: OutputId,
    pub layer: Layer,
    pub namespace: &'static str,
    pub anchor_top: bool,
    pub anchor_bottom: bool,
    pub anchor_left: bool,
    pub anchor_right: bool,
    pub keyboard_interactivity: KeyboardInteractivity,
    pub width: u32,
    pub height: u32,
    pub exclusive_zone: i32,
}

/// Which bars an event is about.
#[derive(Copy, Clone, Debug, PartialEq, Eq, Structural)]
pub enum Target {
    /// The bars of an output.
    Output(OutputId),
    /// The bars drawn on a layer surface.
    Layer(LayerSurfaceId),
}

impl Target {
    /// Whether the event is about `bar`.
    pub open spec fn matches(self, bar: BarView) -> bool {
        match self {
            Target::Output(output) => bar.output == output,
            Target::Layer(layer) => bar.layer_surface == layer,
        }
    }

    /// The bars the event is about.
    pub open spec fn hits(self) -> spec_fn(BarView) -> bool {
        |bar: BarView| self.matches(bar)
    }

    /// The bars the event leaves alone.
    pub open spec fn misses(self) -> spec_fn(BarView) -> bool {
        |bar: BarView| !self.matches(bar)
    }

    /// Whether the event is about `bar`.
    pub fn is_match(&self, bar: &Bar) -> (yes: bool)
        ensures
            yes == self.matches(bar@),
    {
        match self {
            Target::Output(output) => bar.output() == *output,
            Target::Layer(layer) => bar.layer_surface() == *layer,
        }
    }
}

/// What each of `bars` stands for.
pub open spec fn views(bars: Seq<Bar>) -> Seq<BarView> {
    bars.map_values(|bar: Bar| bar@)
}

/// Each of `bars`, closed.
pub open spec fn all_closed(bars: Seq<BarView>) -> Seq<BarView> {
    bars.map_values(|bar: BarView| bar.closed())
}

/// Every bar is well formed and none is closed.
pub open spec fn live(bars: Seq<BarView>) -> bool {
    forall|i: int| 0 <= i < bars.len() ==> (#[trigger] bars[i]).wf() && !(bars[i].state is Closed)
}

/// `i` is where the first bar drawn on `layer` stands.
pub open spec fn first_on_layer(bars: Seq<BarView>, layer: LayerSurfaceId, i: int) -> bool {
    &&& 0 <= i < bars.len()
    &&& bars[i].layer_surface == layer
    &&& forall|j: int| 0 <= j < i ==> bars[j].layer_surface != layer
}

/// No bar is drawn on `layer`.
pub open spec fn none_on_layer(bars: Seq<BarView>, layer: LayerSurfaceId) -> bool {
    forall|j: int| 0 <= j < bars.len() ==> bars[j].layer_surface != layer
}

/// The dispatcher.
#[derive(Debug)]
pub struct App {
    bars: Vec<Bar>,
    renderer: Renderer,
}

impl View for App {
    type V = Seq<BarView>;

    closed spec fn view(&self) -> Seq<BarView> {
        views(self.bars@)
    }
}

impl App {
    /// A dispatcher without bars, if graphics negotiation succeeded;
    /// the arguments and the failures are those of [`Renderer::new`].
    pub fn new(adapter_found: bool, device_created: bool) -> (app: Result<App, RenderError>)
        ensures
            app is Ok <==> adapter_found && device_created,
            app matches Ok(a) ==> a@ == Seq::<BarView>::empty(),
            !adapter_found ==> (app matches Err(e) && e == RenderError::AdapterUnavailable),
            adapter_found && !device_created ==> (app matches Err(e) && e
                == RenderError::DeviceCreationFailed),
    {
        match Renderer::new(adapter_found, device_created) {
            Ok(renderer) => {
                let app = App { bars: Vec::new(), renderer };
                assert(app@ =~= Seq::<BarView>::empty());
                Ok(app)
            },
            Err(error) => Err(error),
        }
    }

    /// The bars of the live outputs, in the order the outputs appeared.
    pub fn bars(&self) -> (bars: &Vec<Bar>)
        ensures
            views(bars@) == self@,
    {
        &self.bars
    }

    /// The layer surface to ask for when `output` appears: on the top layer
    /// under the name `rbar`, anchored to the top edge from left to right,
    /// without keyboard focus, as wide as the compositor decides and
    /// [`BAR_HEIGHT`] high, reserving as much of the output.
    pub fn layer_request(&self, output: OutputId) -> (request: LayerRequest)
        ensures
            request.output == output,
            request.layer == Layer::Top,
            request.namespace@ == "rbar"@,
            request.anchor_top && request.anchor_left && request.anchor_right,
            !request.anchor_bottom,
            request.keyboard_interactivity == KeyboardInteractivity::Never,
            request.width == 0,
            request.height == BAR_HEIGHT,
            request.exclusive_zone == BAR_HEIGHT,
    {
        LayerRequest {
            output,
            layer: Layer::Top,
            namespace: "rbar",
            anchor_top: true,
            anchor_bottom: false,
            anchor_left: true,
            anchor_right: true,
            keyboard_interactivity: KeyboardInteractivity::Never,
            width: 0,
            height: 30,
            exclusive_zone: 30,
        }
    }

    /// An output appeared and `layer_surface` was committed for it: a bar
    /// for it joins the others at the end, waiting to be configured, its
    /// renderer made for a surface of [`INITIAL_WIDTH`] by
    /// [`INITIAL_HEIGHT`] that offers `capabilities`.
    pub fn new_output(
        &mut self,
        output: OutputId,
        layer_surface: LayerSurfaceId,
        capabilities: &SurfaceCapabilities,
    )
        requires
            live(old(self)@),
            capabilities.usable(),
        ensures
            final(self)@.len() == old(self)@.len() + 1,
            final(self)@.drop_last() == old(self)@,
            final(self)@.last() == BarView::created(
                layer_surface,
                output,
                SurfaceRendererView::created(
                    final(self)@.last().renderer.config,
                    final(self)@.last().renderer.pipeline,
                ),
            ),
            capabilities.chooses(
                INITIAL_WIDTH,
                INITIAL_HEIGHT,
                final(self)@.last().renderer.config,
            ),
            live(final(self)@),
    {
        let surface_renderer = self.renderer.create_surface_renderer(
            capabilities,
            INITIAL_WIDTH,
            INITIAL_HEIGHT,
        );
        match Bar::new(layer_surface, output, surface_renderer) {
            Ok(bar) => {
                let ghost added = bar@;
                self.bars.push(bar);
                assert(self@ =~= old(self)@.push(added));
                assert(self@.drop_last() =~= old(self)@);
            },
            Err(_) => {},
        }
    }

    /// Takes the bars `target` is about out of the collection and hands them
    /// back closed, in their order; the others stay as they are, in theirs.
    fn remove(&mut self, target: Target) -> (removed: Vec<Bar>)
        requires
            live(old(self)@),
        ensures
            final(self)@ == old(self)@.filter(target.misses()),
            views(removed@) == all_closed(old(self)@.filter(target.hits())),
            live(final(self)@),
    {
        let ghost before = self@;
        let ghost mut seen: int = 0;
        let mut removed: Vec<Bar> = Vec::new();
        let mut i: usize = 0;
        proof {
            reveal(Seq::filter);
            assert(before.take(0).filter(target.misses()) =~= self@.take(0));
            assert(views(removed@) =~= all_closed(before.take(0).filter(target.hits())));
            assert(self@.skip(0) =~= before.skip(0));
        }
        while i < self.bars.len()
            invariant
                0 <= seen <= before.len(),
                i <= self.bars.len(),
                self@.len() == i + before.len() - seen,
                self@.take(i as int) == before.take(seen).filter(target.misses()),
                self@.skip(i as int) == before.skip(seen),
                views(removed@) == all_closed(before.take(seen).filter(target.hits())),
                live(before),
            decreases self.bars.len() - i,
        {
            let ghost current = self@;
            proof {
                assert(current[i as int] == current.skip(i as int)[0]);
                assert(before[seen] == before.skip(seen)[0]);
                assert(before.take(seen + 1) =~= before.take(seen).push(before[seen]));
                before.take(seen).lemma_filter_push(before[seen], target.misses());
                before.take(seen).lemma_filter_push(before[seen], target.hits());
            }
            if target.is_match(&self.bars[i]) {
                let ghost closed_before = views(removed@);
                let mut bar = self.bars.remove(i);
                bar.close();
                removed.push(bar);
                proof {
                    assert(self@ =~= current.remove(i as int));
                    assert(self@.take(i as int) =~= current.take(i as int));
                    assert forall|j: int| 0 <= j < self@.len() - i implies self@.skip(i as int)[j]
                        == before.skip(seen + 1)[j] by {
                        assert(current.skip(i as int)[j + 1] == before.skip(seen)[j + 1]);
                    }
                    assert(self@.skip(i as int) =~= before.skip(seen + 1));
                    assert(views(removed@) =~= closed_before.push(before[seen].closed()));
                    assert(all_closed(before.take(seen).filter(target.hits()).push(before[seen]))
                        =~= closed_before.push(before[seen].closed()));
                    seen = seen + 1;
                }
            } else {
                i += 1;
                proof {
                    assert(self@.take(i as int) =~= current.take(i - 1).push(current[i - 1]));
                    assert forall|j: int| 0 <= j < self@.len() - i implies self@.skip(i as int)[j]
                        == before.skip(seen + 1)[j] by {
                        assert(current.skip(i - 1)[j + 1] == before.skip(seen)[j + 1]);
                    }
                    assert(self@.skip(i as int) =~= before.skip(seen + 1));
                    seen = seen + 1;
                }
            }
        }
        proof {
            assert(self@.take(i as int) =~= self@);
            assert(before.take(seen) =~= before);
            lemma_filter_keeps_live(before, target.misses());
        }
        removed
    }

    /// An output went away: its bars leave the collection and are handed
    /// back closed; all others stay untouched, in their order.
    pub fn output_destroyed(&mut self, output: OutputId) -> (removed: Vec<Bar>)
        requires
            live(old(self)@),
        ensures
            final(self)@ == old(self)@.filter(Target::Output(output).misses()),
            views(removed@) == all_closed(old(self)@.filter(Target::Output(output).hits())),
            live(final(self)@),
    {
        self.remove(Target::Output(output))
    }

    /// A layer surface was closed: its bars leave the collection and are
    /// handed back closed; all others stay untouched, in their order.
    pub fn closed(&mut self, layer: LayerSurfaceId) -> (removed: Vec<Bar>)
        requires
            live(old(self)@),
        ensures
            final(self)@ == old(self)@.filter(Target::Layer(layer).misses()),
            views(removed@) == all_closed(old(self)@.filter(Target::Layer(layer).hits())),
            live(final(self)@),
    {
        self.remove(Target::Layer(layer))
    }

    /// Where the first bar drawn on `layer` stands, if there is one.
    pub fn find(&self, layer: LayerSurfaceId) -> (found: Option<usize>)
        ensures
            found matches Some(i) ==> first_on_layer(self@, layer, i as int),
            found is None ==> none_on_layer(self@, layer),
    {
        let mut i: usize = 0;
        while i < self.bars.len()
            invariant
                i <= self.bars.len(),
                forall|j: int| 0 <= j < i ==> self@[j].layer_surface != layer,
            decreases self.bars.len() - i,
        {
            if self.bars[i].layer_surface() == layer {
                return Some(i);
            }
            i += 1;
        }
        None
    }

    /// The compositor sized `layer`: the first bar drawn on it takes the
    /// size, and what has to be applied to its surface is returned. No other
    /// bar changes. Without such a bar nothing changes and `None` is
    /// returned.
    pub fn configure(&mut self, layer: LayerSurfaceId, width: u32, height: u32) -> (resize:
        Option<Resize>)
        requires
            live(old(self)@),
            width > 0,
            height > 0,
        ensures
            live(final(self)@),
            resize is None <==> none_on_layer(old(self)@, layer),
            resize is None ==> final(self)@ == old(self)@,
            resize matches Some(r) ==> exists|i: int| #[trigger]
                first_on_layer(old(self)@, layer, i) && final(self)@ == old(self)@.update(
                    i,
                    old(self)@[i].configured(width, height),
                ) && r.config == final(self)@[i].renderer.config && r.uniform@ == Globals::of_size(
                    width,
                    height,
                ).bytes(),
    {
        match self.find(layer) {
            Some(i) => {
                let resize = self.bars[i].configure(width, height);
                assert(self@ =~= old(self)@.update(
                    i as int,
                    old(self)@[i as int].configured(width, height),
                ));
                assert(first_on_layer(old(self)@, layer, i as int));
                resize
            },
            None => None,
        }
    }

    /// The surface of `layer` answered the request for a texture: what the
    /// first bar drawn on it makes of the frame. `None` if there is no such
    /// bar or it is not configured.
    pub fn render(&self, layer: LayerSurfaceId, acquired: Result<(), SurfaceError>) -> (outcome:
        Option<Result<FramePlan, RenderError>>)
        requires
            live(self@),
        ensures
            none_on_layer(self@, layer) ==> outcome is None,
            forall|i: int| first_on_layer(self@, layer, i) ==> outcome == self@[i].rendered(acquired),
    {
        match self.find(layer) {
            Some(i) => self.bars[i].render(acquired),
            None => None,
        }
    }
}

/// Bars picked out of live bars are live.
pub proof fn lemma_filter_keeps_live(bars: Seq<BarView>, pick: spec_fn(BarView) -> bool)
    requires
        live(bars),
    ensures
        live(bars.filter(pick)),
    decreases bars.len(),
{
    reveal(Seq::filter);
    if bars.len() > 0 {
        lemma_filter_keeps_live(bars.drop_last(), pick);
    }
}

/// If exactly one bar belongs to the target of a removal, the removal takes
/// out that bar and nothing else: every other bar stays, unchanged and in
/// order.
pub proof fn lemma_remove_exactly_one(bars: Seq<BarView>, target: Target, i: int)
    requires
        0 <= i < bars.len(),
        target.matches(bars[i]),
        forall|j: int| 0 <= j < bars.len() && j != i ==> !target.matches(bars[j]),
    ensures
        bars.filter(target.misses()) == bars.remove(i),
        bars.filter(target.hits()) == seq![bars[i]],
    decreases bars.len(),
{
    reveal(Seq::filter);
    let rest = bars.drop_last();
    if i == bars.len() - 1 {
        lemma_remove_none(rest, target);
        assert(bars.remove(i) =~= rest);
        assert(rest.filter(target.hits()).push(bars[i]) =~= seq![bars[i]]);
    } else {
        lemma_remove_exactly_one(rest, target, i);
        assert(rest.remove(i).push(bars.last()) =~= bars.remove(i));
    }
}

/// A removal whose target no bar belongs to leaves the collection as it is.
pub proof fn lemma_remove_none(bars: Seq<BarView>, target: Target)
    requires
        forall|j: int| 0 <= j < bars.len() ==> !target.matches(bars[j]),
    ensures
        bars.filter(target.misses()) == bars,
        bars.filter(target.hits()) == Seq::<BarView>::empty(),
    decreases bars.len(),
{
    reveal(Seq::filter);
    if bars.len() > 0 {
        lemma_remove_none(bars.drop_last(), target);
        assert(bars.drop_last().push(bars.last()) =~= bars);
    } else {
        assert(bars =~= Seq::<BarView>::empty());
    }
}

/// Sizing one bar leaves every other bar as it was, its uniform included.
pub proof fn lemma_configure_leaves_others(
    bars: Seq<BarView>,
    i: int,
    width: u32,
    height: u32,
    j: int,
)
    requires
        0 <= i < bars.len(),
        0 <= j < bars.len(),
        j != i,
    ensures
        bars.update(i, bars[i].configured(width, height))[j] == bars[j],
        bars.update(i, bars[i].configured(width, height))[j].renderer.globals
            == bars[j].renderer.globals,
{
}

} // verus!
