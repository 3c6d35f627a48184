//! The attributes of a fill pattern: a sparse record, the rule that fills
//! it from another record, and the defaults for what stays unset.

use vstd::prelude::*;

use crate::aspect_ratio::{Align, AlignMode, AspectRatio, FitMode};
use crate::length::{LengthDir, LengthUnit, RsvgLength};
use crate::scalar::Scalar;

verus! {

/// An affine transform: `x' = xx·x + xy·y + x0`, `y' = yx·x + yy·y + y0`.
#[derive(Debug, Copy, Clone, PartialEq, Eq, Structural)]
pub struct Matrix {
    pub xx: Scalar,
    pub yx: Scalar,
    pub xy: Scalar,
    pub yy: Scalar,
    pub x0: Scalar,
    pub y0: Scalar,
}

/// A rectangle, by its corner and its size.
#[derive(Debug, Copy, Clone, PartialEq, Eq, Structural)]
pub struct Rectangle {
    pub x: Scalar,
    pub y: Scalar,
    pub width: Scalar,
    pub height: Scalar,
}

/// A view box: the rectangle that content is drawn in, and whether the
/// author gave one.
#[derive(Debug, Copy, Clone, PartialEq, Eq, Structural)]
pub struct RsvgViewBox {
    pub rect: Rectangle,
    pub active: bool,
}

/// What stands for a node of the host's tree. Only the host knows what it
/// refers to.
#[derive(Debug, Copy, Clone, PartialEq, Eq, Structural)]
pub struct NodeHandle {
    pub id: usize,
}

impl Matrix {
    /// The transform that moves nothing.
    pub open spec fn spec_identity() -> Matrix {
        Matrix {
            xx: Scalar { bits: 0x3ff0_0000_0000_0000 },
            yx: Scalar { bits: 0 },
            xy: Scalar { bits: 0 },
            yy: Scalar { bits: 0x3ff0_0000_0000_0000 },
            x0: Scalar { bits: 0 },
            y0: Scalar { bits: 0 },
        }
    }

    /// The transform that moves nothing.
    #[verifier::when_used_as_spec(spec_identity)]
    pub fn identity() -> (r: Matrix)
        ensures
            r == Matrix::spec_identity(),
    {
        Matrix {
            xx: Scalar::one(),
            yx: Scalar::zero(),
            xy: Scalar::zero(),
            yy: Scalar::one(),
            x0: Scalar::zero(),
            y0: Scalar::zero(),
        }
    }
}

impl RsvgViewBox {
    /// The view box of a pattern whose author gave none.
    pub open spec fn spec_new_inactive() -> RsvgViewBox {
        RsvgViewBox {
            rect: Rectangle {
                x: Scalar { bits: 0 },
                y: Scalar { bits: 0 },
                width: Scalar { bits: 0 },
                height: Scalar { bits: 0 },
            },
            active: false,
        }
    }

    /// The view box of a pattern whose author gave none.
    #[verifier::when_used_as_spec(spec_new_inactive)]
    pub fn new_inactive() -> (r: RsvgViewBox)
        ensures
            r == RsvgViewBox::spec_new_inactive(),
    {
        RsvgViewBox {
            rect: Rectangle {
                x: Scalar::zero(),
                y: Scalar::zero(),
                width: Scalar::zero(),
                height: Scalar::zero(),
            },
            active: false,
        }
    }
}

/// The attributes of one pattern definition. A field that holds `None` was
/// not given, and is taken from the fallback or from the defaults.
#[derive(Debug)]
pub struct Pattern {
    /// Whether `x`, `y`, `width` and `height` are fractions of the painted
    /// object's bounding box.
    pub obj_bbox: Option<bool>,
    /// Whether the content is drawn in units of that bounding box.
    pub obj_cbbox: Option<bool>,
    pub vbox: Option<RsvgViewBox>,
    pub preserve_aspect_ratio: Option<AspectRatio>,
    pub affine: Option<Matrix>,
    /// The name of the pattern to take unset fields from.
    pub fallback: Option<String>,
    pub x: Option<RsvgLength>,
    pub y: Option<RsvgLength>,
    pub width: Option<RsvgLength>,
    pub height: Option<RsvgLength>,
    /// The node whose children are the pattern's content.
    pub c_node: NodeHandle,
    /// Whether that node has children.
    pub has_visible_content: bool,
}

/// A pattern as specifications see it: the name of the fallback is a
/// sequence of characters.
pub struct PatternView {
    pub obj_bbox: Option<bool>,
    pub obj_cbbox: Option<bool>,
    pub vbox: Option<RsvgViewBox>,
    pub preserve_aspect_ratio: Option<AspectRatio>,
    pub affine: Option<Matrix>,
    pub fallback: Option<Seq<char>>,
    pub x: Option<RsvgLength>,
    pub y: Option<RsvgLength>,
    pub width: Option<RsvgLength>,
    pub height: Option<RsvgLength>,
    pub c_node: NodeHandle,
    pub has_visible_content: bool,
}

/// A pattern with nothing left unset.
#[derive(Debug, Copy, Clone, PartialEq, Eq, Structural)]
pub struct ResolvedPattern {
    pub obj_bbox: bool,
    pub obj_cbbox: bool,
    pub vbox: RsvgViewBox,
    pub preserve_aspect_ratio: AspectRatio,
    pub affine: Matrix,
    pub x: RsvgLength,
    pub y: RsvgLength,
    pub width: RsvgLength,
    pub height: RsvgLength,
    pub c_node: NodeHandle,
    pub has_visible_content: bool,
}

impl View for Pattern {
    type V = PatternView;

    open spec fn view(&self) -> PatternView {
        PatternView {
            obj_bbox: self.obj_bbox,
            obj_cbbox: self.obj_cbbox,
            vbox: self.vbox,
            preserve_aspect_ratio: self.preserve_aspect_ratio,
            affine: self.affine,
            fallback: match self.fallback {
                Some(name) => Some(name@),
                None => None,
            },
            x: self.x,
            y: self.y,
            width: self.width,
            height: self.height,
            c_node: self.c_node,
            has_visible_content: self.has_visible_content,
        }
    }
}

/// The own value where there is one, and the other value where not.
pub open spec fn prefer<T>(own: Option<T>, other: Option<T>) -> Option<T> {
    if own is Some {
        own
    } else {
        other
    }
}

/// The value that is there, and `default` where none is.
pub open spec fn value_or<T>(value: Option<T>, default: T) -> T {
    match value {
        Some(v) => v,
        None => default,
    }
}

/// The length that an unset `x`, `y`, `width` or `height` stands for.
pub open spec fn zero_length() -> RsvgLength {
    RsvgLength {
        length: Scalar { bits: 0 },
        unit: LengthUnit::Default,
        dir: LengthDir::Horizontal,
    }
}

/// The aspect ratio that an unset one stands for: `xMidYMid meet`.
pub open spec fn default_aspect_ratio() -> AspectRatio {
    AspectRatio {
        defer: false,
        align: Align::Aligned { align: AlignMode::XmidYmid, fit: FitMode::Meet },
    }
}

impl PatternView {
    /// Every attribute has a value. The fallback's name is no attribute.
    pub open spec fn is_populated(self) -> bool {
        &&& self.obj_bbox is Some
        &&& self.obj_cbbox is Some
        &&& self.vbox is Some
        &&& self.preserve_aspect_ratio is Some
        &&& self.affine is Some
        &&& self.x is Some
        &&& self.y is Some
        &&& self.width is Some
        &&& self.height is Some
    }

    /// Every attribute has a value, and there is content to draw.
    pub open spec fn is_resolved(self) -> bool {
        self.is_populated() && self.has_visible_content
    }

    /// The pattern with each unset field taken from `other`. The content
    /// is `other`'s where the pattern has none of its own.
    pub open spec fn overlay(self, other: PatternView) -> PatternView {
        PatternView {
            obj_bbox: prefer(self.obj_bbox, other.obj_bbox),
            obj_cbbox: prefer(self.obj_cbbox, other.obj_cbbox),
            vbox: prefer(self.vbox, other.vbox),
            preserve_aspect_ratio: prefer(self.preserve_aspect_ratio, other.preserve_aspect_ratio),
            affine: prefer(self.affine, other.affine),
            fallback: prefer(self.fallback, other.fallback),
            x: prefer(self.x, other.x),
            y: prefer(self.y, other.y),
            width: prefer(self.width, other.width),
            height: prefer(self.height, other.height),
            c_node: if self.has_visible_content { self.c_node } else { other.c_node },
            has_visible_content: if self.has_visible_content {
                true
            } else {
                other.has_visible_content
            },
        }
    }

    /// The pattern with no fallback named.
    pub open spec fn without_fallback(self) -> PatternView {
        PatternView { fallback: None, ..self }
    }

    /// The pattern with each unset attribute at its default, and no
    /// fallback named.
    pub open spec fn with_defaults(self) -> PatternView {
        PatternView {
            obj_bbox: Some(value_or(self.obj_bbox, true)),
            obj_cbbox: Some(value_or(self.obj_cbbox, false)),
            vbox: Some(value_or(self.vbox, RsvgViewBox::spec_new_inactive())),
            preserve_aspect_ratio: Some(
                value_or(self.preserve_aspect_ratio, default_aspect_ratio()),
            ),
            affine: Some(value_or(self.affine, Matrix::spec_identity())),
            fallback: None,
            x: Some(value_or(self.x, zero_length())),
            y: Some(value_or(self.y, zero_length())),
            width: Some(value_or(self.width, zero_length())),
            height: Some(value_or(self.height, zero_length())),
            c_node: self.c_node,
            has_visible_content: self.has_visible_content,
        }
    }

    /// The attributes, each at its value or at its default.
    pub open spec fn resolved(self) -> ResolvedPattern {
        ResolvedPattern {
            obj_bbox: value_or(self.obj_bbox, true),
            obj_cbbox: value_or(self.obj_cbbox, false),
            vbox: value_or(self.vbox, RsvgViewBox::spec_new_inactive()),
            preserve_aspect_ratio: value_or(self.preserve_aspect_ratio, default_aspect_ratio()),
            affine: value_or(self.affine, Matrix::spec_identity()),
            x: value_or(self.x, zero_length()),
            y: value_or(self.y, zero_length()),
            width: value_or(self.width, zero_length()),
            height: value_or(self.height, zero_length()),
            c_node: self.c_node,
            has_visible_content: self.has_visible_content,
        }
    }
}

/// The own value where there is one, and the other value where not.
pub fn or_else<T: Copy>(own: Option<T>, other: Option<T>) -> (r: Option<T>)
    ensures
        r == prefer(own, other),
{
    match own {
        Some(_) => own,
        None => other,
    }
}

/// A copy of the name of a fallback.
pub fn clone_fallback_name(fallback: &Option<String>) -> (r: Option<String>)
    ensures
        r is Some == fallback is Some,
        r matches Some(name) ==> name@ == fallback->0@,
{
    match fallback {
        Some(name) => Some(name.clone()),
        None => None,
    }
}

impl Clone for Pattern {
    fn clone(&self) -> (r: Pattern)
        ensures
            r@ == self@,
    {
        Pattern {
            obj_bbox: self.obj_bbox,
            obj_cbbox: self.obj_cbbox,
            vbox: self.vbox,
            preserve_aspect_ratio: self.preserve_aspect_ratio,
            affine: self.affine,
            fallback: clone_fallback_name(&self.fallback),
            x: self.x,
            y: self.y,
            width: self.width,
            height: self.height,
            c_node: self.c_node,
            has_visible_content: self.has_visible_content,
        }
    }
}

impl Pattern {
    /// A pattern with every attribute unset, whose content is the children
    /// of `c_node`.
    pub fn new(c_node: NodeHandle, has_visible_content: bool) -> (r: Pattern)
        ensures
            r@ == (PatternView {
                obj_bbox: None,
                obj_cbbox: None,
                vbox: None,
                preserve_aspect_ratio: None,
                affine: None,
                fallback: None,
                x: None,
                y: None,
                width: None,
                height: None,
                c_node,
                has_visible_content,
            }),
    {
        Pattern {
            obj_bbox: None,
            obj_cbbox: None,
            vbox: None,
            preserve_aspect_ratio: None,
            affine: None,
            fallback: None,
            x: None,
            y: None,
            width: None,
            height: None,
            c_node,
            has_visible_content,
        }
    }

    /// Whether every attribute has a value and there is content to draw.
    pub fn is_resolved(&self) -> (r: bool)
        ensures
            r == self@.is_resolved(),
    {
        self.obj_bbox.is_some() && self.obj_cbbox.is_some() && self.vbox.is_some()
            && self.preserve_aspect_ratio.is_some() && self.affine.is_some() && self.x.is_some()
            && self.y.is_some() && self.width.is_some() && self.height.is_some()
            && self.has_visible_content
    }

    /// Sets each unset attribute to its default, and names no fallback.
    pub fn resolve_from_defaults(&mut self)
        ensures
            final(self)@ == old(self)@.with_defaults(),
    {
        if self.obj_bbox.is_none() {
            self.obj_bbox = Some(true);
        }
        if self.obj_cbbox.is_none() {
            self.obj_cbbox = Some(false);
        }
        if self.vbox.is_none() {
            self.vbox = Some(RsvgViewBox::new_inactive());
        }
        if self.preserve_aspect_ratio.is_none() {
            self.preserve_aspect_ratio = Some(AspectRatio::default());
        }
        if self.affine.is_none() {
            self.affine = Some(Matrix::identity());
        }
        self.fallback = None;
        let zero = RsvgLength::new(Scalar::zero(), LengthUnit::Default, LengthDir::Horizontal);
        if self.x.is_none() {
            self.x = Some(zero);
        }
        if self.y.is_none() {
            self.y = Some(zero);
        }
        if self.width.is_none() {
            self.width = Some(zero);
        }
        if self.height.is_none() {
            self.height = Some(zero);
        }
    }

    /// Takes each unset field from `fallback`, and the content too where
    /// the pattern has none of its own.
    pub fn resolve_from_fallback(&mut self, fallback: &Pattern)
        ensures
            final(self)@ == old(self)@.overlay(fallback@),
    {
        self.obj_bbox = or_else(self.obj_bbox, fallback.obj_bbox);
        self.obj_cbbox = or_else(self.obj_cbbox, fallback.obj_cbbox);
        self.vbox = or_else(self.vbox, fallback.vbox);
        self.preserve_aspect_ratio =
        or_else(self.preserve_aspect_ratio, fallback.preserve_aspect_ratio);
        self.affine = or_else(self.affine, fallback.affine);
        self.x = or_else(self.x, fallback.x);
        self.y = or_else(self.y, fallback.y);
        self.width = or_else(self.width, fallback.width);
        self.height = or_else(self.height, fallback.height);
        if self.fallback.is_none() {
            self.fallback = clone_fallback_name(&fallback.fallback);
        }
        if !self.has_visible_content {
            self.c_node = fallback.c_node;
            self.has_visible_content = fallback.has_visible_content;
        }
    }

    /// The attributes, each at its value or at its default.
    pub fn resolved(&self) -> (r: ResolvedPattern)
        ensures
            r == self@.resolved(),
    {
        let zero = RsvgLength::new(Scalar::zero(), LengthUnit::Default, LengthDir::Horizontal);
        ResolvedPattern {
            obj_bbox: match self.obj_bbox {
                Some(v) => v,
                None => true,
            },
            obj_cbbox: match self.obj_cbbox {
                Some(v) => v,
                None => false,
            },
            vbox: match self.vbox {
                Some(v) => v,
                None => RsvgViewBox::new_inactive(),
            },
            preserve_aspect_ratio: match self.preserve_aspect_ratio {
                Some(v) => v,
                None => AspectRatio::default(),
            },
            affine: match self.affine {
                Some(v) => v,
                None => Matrix::identity(),
            },
            x: match self.x {
                Some(v) => v,
                None => zero,
            },
            y: match self.y {
                Some(v) => v,
                None => zero,
            },
            width: match self.width {
                Some(v) => v,
                None => zero,
            },
            height: match self.height {
                Some(v) => v,
                None => zero,
            },
            c_node: self.c_node,
            has_visible_content: self.has_visible_content,
        }
    }
}

/// What `x`, `y`, `width` and `height` of a pattern are measured in.
#[derive(Debug, Copy, Clone, PartialEq, Eq, Structural)]
pub enum PatternUnits {
    /// Fractions of the bounding box of the painted object: the lengths
    /// are normalized in a viewport of one by one, the size of the tile is
    /// scaled by the size of the box, and the tile is placed from the
    /// corner of the box.
    ObjectBoundingBox,
    /// The units of the caller: the lengths are normalized in the
    /// caller's viewport and nothing is scaled.
    UserSpace,
}

/// The coordinate system the content of a pattern is drawn in.
#[derive(Debug, Copy, Clone, PartialEq, Eq, Structural)]
pub enum ContentFrame {
    /// The view box, fitted into the tile by the aspect ratio. The
    /// viewport of the content has the size of the view box.
    ViewBox,
    /// The bounding box of the painted object as a unit square. The
    /// viewport of the content is one by one.
    ObjectBoundingBox,
    /// The coordinate system of the tile. No viewport is set.
    Tile,
}

impl ResolvedPattern {
    /// What the position and the size of the tile are measured in.
    pub fn units(&self) -> (r: PatternUnits)
        ensures
            r == (if self.obj_bbox {
                PatternUnits::ObjectBoundingBox
            } else {
                PatternUnits::UserSpace
            }),
    {
        if self.obj_bbox {
            PatternUnits::ObjectBoundingBox
        } else {
            PatternUnits::UserSpace
        }
    }

    /// The coordinate system of the content: a view box goes before the
    /// bounding box, and the bounding box before the tile's own system.
    pub fn content_frame(&self) -> (r: ContentFrame)
        ensures
            r == (if self.vbox.active {
                ContentFrame::ViewBox
            } else if self.obj_cbbox {
                ContentFrame::ObjectBoundingBox
            } else {
                ContentFrame::Tile
            }),
    {
        if self.vbox.active {
            ContentFrame::ViewBox
        } else if self.obj_cbbox {
            ContentFrame::ObjectBoundingBox
        } else {
            ContentFrame::Tile
        }
    }
}

} // verus!
