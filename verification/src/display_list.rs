//! The display list: one frame's drawing commands in order, the builder that
//! appends them, and the rule that says when pushes and pops are paired.

use crate::geometry::{LayoutRect, RectModel};
use vstd::prelude::*;

verus! {

/// A colour; each channel counts hundredths, so 100 is full intensity.
#[derive(Clone, Copy, Debug, PartialEq, Eq, Structural)]
pub struct Color {
    pub red: u8,
    pub green: u8,
    pub blue: u8,
    pub alpha: u8,
}

impl Color {
    /// The colour with the given channels, in hundredths.
    pub fn new(red: u8, green: u8, blue: u8, alpha: u8) -> (c: Color)
        ensures
            c == (Color { red, green, blue, alpha }),
    {
        Color { red, green, blue, alpha }
    }
}

/// Whether a stacking context moves with its scroll frame.
#[derive(Clone, Copy, Debug, PartialEq, Eq, Structural)]
pub enum ScrollPolicy {
    Scrollable,
    Fixed,
}

/// Whether a stacking context flattens its children into its own plane.
#[derive(Clone, Copy, Debug, PartialEq, Eq, Structural)]
pub enum TransformStyle {
    Flat,
    Preserve3D,
}

/// How a stacking context blends with what lies below it.
#[derive(Clone, Copy, Debug, PartialEq, Eq, Structural)]
pub enum MixBlendMode {
    Normal,
    Multiply,
    Screen,
}

/// Which sources may scroll a scroll frame.
#[derive(Clone, Copy, Debug, PartialEq, Eq, Structural)]
pub enum ScrollSensitivity {
    ScriptAndInputEvents,
    Script,
}

/// Names a scroll frame by the position of its defining item in the list.
#[derive(Clone, Copy, Debug, PartialEq, Eq, Structural)]
pub struct ClipId(pub usize);

/// One drawing command.
#[derive(Clone, Copy, Debug, PartialEq, Eq, Structural)]
pub enum DisplayItem {
    PushStackingContext {
        scroll_policy: ScrollPolicy,
        bounds: LayoutRect,
        transform_style: TransformStyle,
        mix_blend_mode: MixBlendMode,
    },
    PopStackingContext,
    Rect { rect: LayoutRect, clip: Option<LayoutRect>, color: Color },
    ScrollFrame {
        id: ClipId,
        content_rect: LayoutRect,
        clip_rect: LayoutRect,
        sensitivity: ScrollSensitivity,
    },
    PushClip { id: ClipId },
    PopClip,
}

/// The mathematical value of a drawing command.
pub ghost enum ItemModel {
    PushStackingContext {
        scroll_policy: ScrollPolicy,
        bounds: RectModel,
        transform_style: TransformStyle,
        mix_blend_mode: MixBlendMode,
    },
    PopStackingContext,
    Rect { rect: RectModel, clip: Option<RectModel>, color: Color },
    ScrollFrame {
        id: int,
        content_rect: RectModel,
        clip_rect: RectModel,
        sensitivity: ScrollSensitivity,
    },
    PushClip { id: int },
    PopClip,
}

impl View for DisplayItem {
    type V = ItemModel;

    open spec fn view(&self) -> ItemModel {
        match *self {
            DisplayItem::PushStackingContext {
                scroll_policy,
                bounds,
                transform_style,
                mix_blend_mode,
            } => ItemModel::PushStackingContext {
                scroll_policy,
                bounds: bounds@,
                transform_style,
                mix_blend_mode,
            },
            DisplayItem::PopStackingContext => ItemModel::PopStackingContext,
            DisplayItem::Rect { rect, clip, color } => ItemModel::Rect {
                rect: rect@,
                clip: match clip {
                    Some(c) => Some(c@),
                    None => None,
                },
                color,
            },
            DisplayItem::ScrollFrame { id, content_rect, clip_rect, sensitivity } => {
                ItemModel::ScrollFrame {
                    id: id.0 as int,
                    content_rect: content_rect@,
                    clip_rect: clip_rect@,
                    sensitivity,
                }
            },
            DisplayItem::PushClip { id } => ItemModel::PushClip { id: id.0 as int },
            DisplayItem::PopClip => ItemModel::PopClip,
        }
    }
}

/// What a push opens and the matching pop closes.
#[derive(PartialEq, Eq, Structural)]
pub enum Scope {
    Context,
    Clip,
}

/// The scopes left open after one more command, innermost last; `None` once a
/// pop has met no push of its own kind.
pub open spec fn scope_step(open: Option<Seq<Scope>>, item: ItemModel) -> Option<Seq<Scope>> {
    match open {
        None => None,
        Some(stack) => match item {
            ItemModel::PushStackingContext { .. } => Some(stack.push(Scope::Context)),
            ItemModel::PushClip { .. } => Some(stack.push(Scope::Clip)),
            ItemModel::PopStackingContext => if stack.len() > 0 && stack.last() == Scope::Context {
                Some(stack.drop_last())
            } else {
                None
            },
            ItemModel::PopClip => if stack.len() > 0 && stack.last() == Scope::Clip {
                Some(stack.drop_last())
            } else {
                None
            },
            ItemModel::Rect { .. } => Some(stack),
            ItemModel::ScrollFrame { .. } => Some(stack),
        },
    }
}

/// The scopes left open after a whole command sequence.
pub open spec fn open_scopes(items: Seq<ItemModel>) -> Option<Seq<Scope>>
    decreases items.len(),
{
    if items.len() == 0 {
        Some(Seq::empty())
    } else {
        scope_step(open_scopes(items.drop_last()), items.last())
    }
}

/// Every push has its own pop, innermost first, and nothing is left open.
pub open spec fn well_nested(items: Seq<ItemModel>) -> bool {
    open_scopes(items) == Some(Seq::<Scope>::empty())
}

/// Appending one command advances the open scopes by one step.
pub proof fn lemma_open_scopes_push(items: Seq<ItemModel>, item: ItemModel)
    ensures
        open_scopes(items.push(item)) == scope_step(open_scopes(items), item),
{
    assert(items.push(item).drop_last() =~= items);
}

/// The scroll frames whose clips are open after one more command, innermost
/// last. A pop with no clip open leaves none open.
pub open spec fn clip_step(open: Seq<int>, item: ItemModel) -> Seq<int> {
    match item {
        ItemModel::PushClip { id } => open.push(id),
        ItemModel::PopClip => if open.len() > 0 {
            open.drop_last()
        } else {
            open
        },
        _ => open,
    }
}

/// The scroll frames whose clips are open after a whole command sequence.
pub open spec fn open_clips(items: Seq<ItemModel>) -> Seq<int>
    decreases items.len(),
{
    if items.len() == 0 {
        Seq::empty()
    } else {
        clip_step(open_clips(items.drop_last()), items.last())
    }
}

/// The scroll frame whose clip applies to the command at `index`: the one
/// opened last and not yet closed before it, if there is one.
pub open spec fn clip_at(items: Seq<ItemModel>, index: int) -> Option<int> {
    let open = open_clips(items.take(index));
    if open.len() > 0 {
        Some(open.last())
    } else {
        None
    }
}

/// A finished display list.
#[derive(Debug, PartialEq, Eq)]
pub struct DisplayList {
    pub items: Vec<DisplayItem>,
}

impl View for DisplayList {
    type V = Seq<ItemModel>;

    open spec fn view(&self) -> Seq<ItemModel> {
        self.items@.map_values(|i: DisplayItem| i@)
    }
}

impl DisplayList {
    /// For each command, the scroll frame whose clip applies to it.
    pub fn clips(&self) -> (out: Vec<Option<ClipId>>)
        ensures
            out@.len() == self@.len(),
            forall|i: int|
                0 <= i < out@.len() ==> (match #[trigger] out@[i] {
                    Some(c) => Some(c.0 as int),
                    None => None,
                }) == clip_at(self@, i),
    {
        let mut out: Vec<Option<ClipId>> = Vec::new();
        let mut open: Vec<ClipId> = Vec::new();
        let mut i: usize = 0;
        assert(self@.take(0) =~= Seq::<ItemModel>::empty());
        assert(open@.map_values(|c: ClipId| c.0 as int) =~= Seq::<int>::empty());
        while i < self.items.len()
            invariant
                i <= self.items.len(),
                self@.len() == self.items@.len(),
                out@.len() == i,
                open@.map_values(|c: ClipId| c.0 as int) == open_clips(self@.take(i as int)),
                forall|k: int|
                    0 <= k < i ==> (match #[trigger] out@[k] {
                        Some(c) => Some(c.0 as int),
                        None => None,
                    }) == clip_at(self@, k),
            decreases self.items.len() - i,
        {
            let ghost before = open@;
            let current = if open.len() > 0 {
                Some(open[open.len() - 1])
            } else {
                None
            };
            out.push(current);
            match self.items[i] {
                DisplayItem::PushClip { id } => {
                    open.push(id);
                    assert(open@.map_values(|c: ClipId| c.0 as int) =~= before.map_values(
                        |c: ClipId| c.0 as int,
                    ).push(id.0 as int));
                },
                DisplayItem::PopClip => {
                    if open.len() > 0 {
                        open.pop();
                        assert(open@.map_values(|c: ClipId| c.0 as int) =~= before.map_values(
                            |c: ClipId| c.0 as int,
                        ).drop_last());
                    }
                },
                _ => {},
            }
            proof {
                assert(self@.take(i + 1).drop_last() =~= self@.take(i as int));
                assert(self@.take(i + 1).last() == self.items@[i as int]@);
            }
            i = i + 1;
        }
        out
    }
}

/// Collects the commands of one frame.
pub struct DisplayListBuilder {
    list: DisplayList,
}

impl View for DisplayListBuilder {
    type V = Seq<ItemModel>;

    closed spec fn view(&self) -> Seq<ItemModel> {
        self.list@
    }
}

impl DisplayListBuilder {
    /// A builder with no commands.
    pub fn new() -> (b: DisplayListBuilder)
        ensures
            b@ == Seq::<ItemModel>::empty(),
    {
        let b = DisplayListBuilder { list: DisplayList { items: Vec::new() } };
        assert(b.list@ =~= Seq::<ItemModel>::empty());
        b
    }

    /// How many commands have been appended.
    pub fn len(&self) -> (n: usize)
        ensures
            n == self@.len(),
    {
        self.list.items.len()
    }

    fn append(&mut self, item: DisplayItem)
        ensures
            final(self)@ == old(self)@.push(item@),
            open_scopes(final(self)@) == scope_step(open_scopes(old(self)@), item@),
    {
        self.list.items.push(item);
        proof {
            assert(self.list@ =~= old(self).list@.push(item@));
            lemma_open_scopes_push(old(self)@, item@);
        }
    }

    /// Opens a stacking context.
    pub fn push_stacking_context(
        &mut self,
        scroll_policy: ScrollPolicy,
        bounds: LayoutRect,
        transform_style: TransformStyle,
        mix_blend_mode: MixBlendMode,
    )
        ensures
            final(self)@ == old(self)@.push(
                ItemModel::PushStackingContext {
                    scroll_policy,
                    bounds: bounds@,
                    transform_style,
                    mix_blend_mode,
                },
            ),
            open_scopes(final(self)@) == scope_step(open_scopes(old(self)@), final(self)@.last()),
    {
        self.append(
            DisplayItem::PushStackingContext { scroll_policy, bounds, transform_style, mix_blend_mode },
        );
    }

    /// Closes the innermost stacking context.
    pub fn pop_stacking_context(&mut self)
        ensures
            final(self)@ == old(self)@.push(ItemModel::PopStackingContext),
            open_scopes(final(self)@) == scope_step(open_scopes(old(self)@), final(self)@.last()),
    {
        self.append(DisplayItem::PopStackingContext);
    }

    /// Fills `rect` with `color`, cut to `clip` where one is given.
    pub fn push_rect(&mut self, rect: LayoutRect, clip: Option<LayoutRect>, color: Color)
        ensures
            final(self)@ == old(self)@.push(
                ItemModel::Rect {
                    rect: rect@,
                    clip: match clip {
                        Some(c) => Some(c@),
                        None => None,
                    },
                    color,
                },
            ),
            open_scopes(final(self)@) == open_scopes(old(self)@),
    {
        self.append(DisplayItem::Rect { rect, clip, color });
    }

    /// Defines a scroll frame and returns its name: the position of the
    /// defining command in the list.
    pub fn define_scroll_frame(
        &mut self,
        content_rect: LayoutRect,
        clip_rect: LayoutRect,
        sensitivity: ScrollSensitivity,
    ) -> (id: ClipId)
        ensures
            id.0 == old(self)@.len(),
            final(self)@ == old(self)@.push(
                ItemModel::ScrollFrame {
                    id: old(self)@.len() as int,
                    content_rect: content_rect@,
                    clip_rect: clip_rect@,
                    sensitivity,
                },
            ),
            open_scopes(final(self)@) == open_scopes(old(self)@),
    {
        let id = ClipId(self.len());
        self.append(DisplayItem::ScrollFrame { id, content_rect, clip_rect, sensitivity });
        id
    }

    /// Opens the clip of the scroll frame `id`.
    pub fn push_clip_id(&mut self, id: ClipId)
        ensures
            final(self)@ == old(self)@.push(ItemModel::PushClip { id: id.0 as int }),
            open_scopes(final(self)@) == scope_step(open_scopes(old(self)@), final(self)@.last()),
    {
        self.append(DisplayItem::PushClip { id });
    }

    /// Closes the innermost clip.
    pub fn pop_clip_id(&mut self)
        ensures
            final(self)@ == old(self)@.push(ItemModel::PopClip),
            open_scopes(final(self)@) == scope_step(open_scopes(old(self)@), final(self)@.last()),
    {
        self.append(DisplayItem::PopClip);
    }

    /// Hands out the finished list.
    pub fn finalize(self) -> (list: DisplayList)
        ensures
            list@ == self@,
    {
        self.list
    }
}

} // verus!
