//! The generated images: the avatar of a user and the icon of a room, each a
//! tinted square with noise over it and a light shape in the middle.

use crate::text::{decimal, decimal_text};
use rand::rngs::StdRng;
use rand::{Rng, SeedableRng};
use svg::node::element::Element;
use svg::{Document, Node};
use vstd::prelude::*;

verus! {

/// An element of svg, carried as it is: what it holds is spoken of through
/// the names below.
#[verifier::external_type_specification]
#[verifier::external_body]
pub struct ExElement(Element);

/// Calls `StdRng::try_from_os_rng` of rand and, on the generator it gives,
/// `random_range` with the range from `low` up to but without `high`. `None`
/// where the operating system gives no randomness. Not proved: that the
/// number lies in the range. The call panics on an empty range, which
/// `requires` leaves out.
#[verifier::external_body]
fn random_in(low: i32, high: i32) -> (r: Option<i32>)
    requires
        low < high,
    ensures
        r matches Some(n) ==> low <= n < high,
{
    match StdRng::try_from_os_rng() {
        Ok(mut rng) => Some(rng.random_range(low..high)),
        Err(_) => None,
    }
}

/// The tag of an element of svg.
pub uninterp spec fn element_tag(e: Element) -> Seq<char>;

/// The attributes of an element of svg: for each name that was set, the
/// value that was set last.
pub uninterp spec fn element_attributes(e: Element) -> Map<Seq<char>, Seq<char>>;

/// The children that were appended to an element of svg, each as the text
/// that svg writes for it, in the order in which they were appended.
pub uninterp spec fn element_children(e: Element) -> Seq<Seq<char>>;

/// The text that svg writes for an element with this tag and these
/// attributes, to which elements that are written as these texts were
/// appended.
pub uninterp spec fn svg_text(
    tag: Seq<char>,
    attributes: Map<Seq<char>, Seq<char>>,
    children: Seq<Seq<char>>,
) -> Seq<char>;

/// The text that svg writes for the element `e`.
pub open spec fn markup_of(e: Element) -> Seq<char> {
    svg_text(element_tag(e), element_attributes(e), element_children(e))
}

/// The attributes of a new element of svg: none.
pub open spec fn no_attributes() -> Map<Seq<char>, Seq<char>> {
    Map::empty()
}

/// The attributes of a new document of svg: the namespace alone.
pub open spec fn namespace() -> Map<Seq<char>, Seq<char>> {
    no_attributes().insert("xmlns"@, "http://www.w3.org/2000/svg"@)
}

/// The attributes after the pairs of `set` were set one after the other on
/// an element that had the attributes `base`: a name that is set again
/// keeps the later value.
pub open spec fn assigned(
    base: Map<Seq<char>, Seq<char>>,
    set: Seq<(Seq<char>, Seq<char>)>,
) -> Map<Seq<char>, Seq<char>>
    decreases set.len(),
{
    if set.len() == 0 {
        base
    } else {
        assigned(base, set.drop_last()).insert(set.last().0, set.last().1)
    }
}

/// Calls `svg::Document::new` and hands the document on as the element it
/// is made of. Not proved: that this is an `svg` element with the namespace
/// as its one attribute and no children.
#[verifier::external_body]
fn document_root() -> (e: Element)
    ensures
        element_tag(e) == "svg"@,
        element_attributes(e) == namespace(),
        element_children(e) == Seq::<Seq<char>>::empty(),
{
    Element::from(Document::new())
}

/// Calls `to_string` on an element of svg. Not proved: that the text is the
/// named function of the element's tag, attributes and children.
#[verifier::external_body]
fn element_text(element: &Element) -> (text: String)
    ensures
        text@ == svg_text(
            element_tag(*element),
            element_attributes(*element),
            element_children(*element),
        ),
{
    element.to_string()
}

/// Calls `svg::node::element::Element::new`. Not proved: that the element
/// has the tag and nothing else.
#[verifier::external_body]
fn element_new(tag: &str) -> (e: Element)
    ensures
        element_tag(e) == tag@,
        element_attributes(e) == no_attributes(),
        element_children(e) == Seq::<Seq<char>>::empty(),
{
    Element::new(tag)
}

/// Calls `assign` on an element of svg. Not proved: that the name has the
/// value afterwards, whether or not it had one, and nothing else changes.
#[verifier::external_body]
fn element_set(element: &mut Element, name: &str, value: &str)
    ensures
        element_tag(*final(element)) == element_tag(*old(element)),
        element_attributes(*final(element)) == element_attributes(*old(element)).insert(
            name@,
            value@,
        ),
        element_children(*final(element)) == element_children(*old(element)),
{
    element.assign(name, value);
}

/// Calls `append` on an element of svg. Not proved: that the child comes
/// last among the children, written as it is written alone, and nothing
/// else changes.
#[verifier::external_body]
fn element_add(element: &mut Element, child: Element)
    ensures
        element_tag(*final(element)) == element_tag(*old(element)),
        element_attributes(*final(element)) == element_attributes(*old(element)),
        element_children(*final(element)) == element_children(*old(element)).push(
            markup_of(child),
        ),
{
    element.append(child);
}

/// An attribute: a name and a value.
pub struct Attribute {
    pub name: String,
    pub value: String,
}

/// An element without children.
pub struct Leaf {
    pub tag: String,
    pub attributes: Vec<Attribute>,
}

/// An element whose children have none.
pub struct Branch {
    pub tag: String,
    pub attributes: Vec<Attribute>,
    pub leaves: Vec<Leaf>,
}

/// An image: the attributes of its root and the elements below it.
pub struct Drawing {
    pub attributes: Vec<Attribute>,
    pub branches: Vec<Branch>,
}

/// The mathematical value of a [`Leaf`].
pub ghost struct LeafView {
    pub tag: Seq<char>,
    pub attributes: Seq<(Seq<char>, Seq<char>)>,
}

/// The mathematical value of a [`Branch`].
pub ghost struct BranchView {
    pub tag: Seq<char>,
    pub attributes: Seq<(Seq<char>, Seq<char>)>,
    pub leaves: Seq<LeafView>,
}

/// The mathematical value of a [`Drawing`].
pub ghost struct DrawingView {
    pub attributes: Seq<(Seq<char>, Seq<char>)>,
    pub branches: Seq<BranchView>,
}

/// The names and values of a vector of attributes, in order.
pub open spec fn pairs(attributes: Seq<Attribute>) -> Seq<(Seq<char>, Seq<char>)> {
    Seq::new(attributes.len(), |i: int| (attributes[i].name@, attributes[i].value@))
}

impl View for Leaf {
    type V = LeafView;

    open spec fn view(&self) -> LeafView {
        LeafView { tag: self.tag@, attributes: pairs(self.attributes@) }
    }
}

impl View for Branch {
    type V = BranchView;

    open spec fn view(&self) -> BranchView {
        BranchView {
            tag: self.tag@,
            attributes: pairs(self.attributes@),
            leaves: Seq::new(self.leaves@.len(), |i: int| self.leaves@[i]@),
        }
    }
}

impl View for Drawing {
    type V = DrawingView;

    open spec fn view(&self) -> DrawingView {
        DrawingView {
            attributes: pairs(self.attributes@),
            branches: Seq::new(self.branches@.len(), |i: int| self.branches@[i]@),
        }
    }
}

/// The shape in the middle of an image.
pub enum Shape {
    /// The square of a room's icon.
    Square,
    /// The circle of a user's avatar, with its radius in percent.
    Circle { radius: i32 },
}

/// The numbers an image is made from: hue in degrees, saturation and
/// lightness in percent, and the shape.
pub struct Palette {
    pub hue: i32,
    pub saturation: i32,
    pub lightness: i32,
    pub shape: Shape,
}

impl Palette {
    /// The ranges the numbers are drawn from.
    pub open spec fn wf(&self) -> bool {
        &&& 0 <= self.hue < 360
        &&& 75 <= self.saturation < 100
        &&& 40 <= self.lightness < 50
        &&& (self.shape matches Shape::Circle { radius } ==> 25 <= radius < 40)
    }
}

/// The hue fifty degrees on: past `360` it starts again from zero.
pub open spec fn second_hue(hue: int) -> int {
    if hue + 50 > 360 {
        hue + 50 - 360
    } else {
        hue + 50
    }
}

/// One colour of the gradient.
pub open spec fn hsl(hue: int, saturation: int, lightness: int) -> Seq<char> {
    "hsl("@ + decimal_text(hue) + "deg, "@ + decimal_text(saturation) + "%, "@ + decimal_text(
        lightness,
    ) + "%)"@
}

/// The style of the root: a gradient from the hue to the hue fifty degrees
/// on.
pub open spec fn background(hue: int, saturation: int, lightness: int) -> Seq<char> {
    "background: linear-gradient(135deg, "@ + hsl(hue, saturation, lightness) + ", "@ + hsl(
        second_hue(hue),
        saturation,
        lightness,
    ) + ")"@
}

/// The shape in the middle, as an element.
pub open spec fn shape_view(shape: Shape) -> BranchView {
    match shape {
        Shape::Square => BranchView {
            tag: "rect"@,
            attributes: seq![
                ("x"@, "25%"@),
                ("y"@, "25%"@),
                ("height"@, "50%"@),
                ("width"@, "50%"@),
                ("fill"@, "#e9eaff"@),
            ],
            leaves: Seq::empty(),
        },
        Shape::Circle { radius } => BranchView {
            tag: "circle"@,
            attributes: seq![
                ("cx"@, "50%"@),
                ("cy"@, "50%"@),
                ("r"@, decimal_text(radius as int) + "%"@),
                ("fill"@, "#e9eaff"@),
            ],
            leaves: Seq::empty(),
        },
    }
}

/// The image that is made from the numbers of `p`.
pub open spec fn drawing_of(p: Palette) -> DrawingView {
    DrawingView {
        attributes: seq![
            ("width"@, "100px"@),
            ("height"@, "100px"@),
            ("style"@, background(p.hue as int, p.saturation as int, p.lightness as int)),
        ],
        branches: seq![
            BranchView {
                tag: "filter"@,
                attributes: seq![("id"@, "noise"@)],
                leaves: seq![
                    LeafView {
                        tag: "feTurbulence"@,
                        attributes: seq![
                            ("type"@, "fractalNoise"@),
                            ("baseFrequency"@, "5"@),
                            ("numOctaves"@, "3"@),
                            ("stitchTiles"@, "noStitch"@),
                        ],
                    },
                ],
            },
            BranchView {
                tag: "rect"@,
                attributes: seq![
                    ("filter"@, "url(#noise)"@),
                    ("opacity"@, "90%"@),
                    ("height"@, "100%"@),
                    ("width"@, "100%"@),
                ],
                leaves: Seq::empty(),
            },
            shape_view(p.shape),
        ],
    }
}

fn attribute(name: &str, value: &str) -> (a: Attribute)
    ensures
        a.name@ == name@,
        a.value@ == value@,
{
    Attribute { name: name.to_owned(), value: value.to_owned() }
}

fn hsl_text(hue: i32, saturation: i32, lightness: i32) -> (s: String)
    ensures
        s@ == hsl(hue as int, saturation as int, lightness as int),
{
    let mut s = String::from_str("hsl(");
    s.append(decimal(hue as i64).as_str());
    s.append("deg, ");
    s.append(decimal(saturation as i64).as_str());
    s.append("%, ");
    s.append(decimal(lightness as i64).as_str());
    s.append("%)");
    s
}

fn background_text(hue: i32, saturation: i32, lightness: i32) -> (s: String)
    requires
        0 <= hue < 360,
    ensures
        s@ == background(hue as int, saturation as int, lightness as int),
{
    let second: i32 = if hue + 50 > 360 {
        hue + 50 - 360
    } else {
        hue + 50
    };
    let mut s = String::from_str("background: linear-gradient(135deg, ");
    s.append(hsl_text(hue, saturation, lightness).as_str());
    s.append(", ");
    s.append(hsl_text(second, saturation, lightness).as_str());
    s.append(")");
    s
}

fn shape_branch(shape: &Shape) -> (b: Branch)
    ensures
        b@ == shape_view(*shape),
{
    let mut attributes: Vec<Attribute> = Vec::new();
    let tag = match shape {
        Shape::Square => {
            attributes.push(attribute("x", "25%"));
            attributes.push(attribute("y", "25%"));
            attributes.push(attribute("height", "50%"));
            attributes.push(attribute("width", "50%"));
            attributes.push(attribute("fill", "#e9eaff"));
            "rect"
        },
        Shape::Circle { radius } => {
            let mut r = decimal(*radius as i64);
            r.append("%");
            attributes.push(attribute("cx", "50%"));
            attributes.push(attribute("cy", "50%"));
            attributes.push(attribute("r", r.as_str()));
            attributes.push(attribute("fill", "#e9eaff"));
            "circle"
        },
    };
    let b = Branch { tag: tag.to_owned(), attributes, leaves: Vec::new() };
    assert(b@.attributes =~= shape_view(*shape).attributes);
    assert(b@.leaves =~= shape_view(*shape).leaves);
    b
}

/// Makes the image for the numbers of `palette`: see [`drawing_of`].
pub fn draw(palette: &Palette) -> (d: Drawing)
    requires
        palette.wf(),
    ensures
        d@ == drawing_of(*palette),
{
    let ghost want = drawing_of(*palette);
    let mut attributes: Vec<Attribute> = Vec::new();
    attributes.push(attribute("width", "100px"));
    attributes.push(attribute("height", "100px"));
    attributes.push(
        attribute(
            "style",
            background_text(palette.hue, palette.saturation, palette.lightness).as_str(),
        ),
    );
    assert(pairs(attributes@) =~= want.attributes);

    let mut noise: Vec<Attribute> = Vec::new();
    noise.push(attribute("type", "fractalNoise"));
    noise.push(attribute("baseFrequency", "5"));
    noise.push(attribute("numOctaves", "3"));
    noise.push(attribute("stitchTiles", "noStitch"));
    let turbulence = Leaf { tag: "feTurbulence".to_owned(), attributes: noise };
    assert(turbulence@.attributes =~= want.branches[0].leaves[0].attributes);
    let mut leaves: Vec<Leaf> = Vec::new();
    leaves.push(turbulence);
    let mut filter_attributes: Vec<Attribute> = Vec::new();
    filter_attributes.push(attribute("id", "noise"));
    let filter = Branch { tag: "filter".to_owned(), attributes: filter_attributes, leaves };
    assert(filter@.attributes =~= want.branches[0].attributes);
    assert(filter@.leaves =~= want.branches[0].leaves);

    let mut cover: Vec<Attribute> = Vec::new();
    cover.push(attribute("filter", "url(#noise)"));
    cover.push(attribute("opacity", "90%"));
    cover.push(attribute("height", "100%"));
    cover.push(attribute("width", "100%"));
    let rect = Branch { tag: "rect".to_owned(), attributes: cover, leaves: Vec::new() };
    assert(rect@.attributes =~= want.branches[1].attributes);
    assert(rect@.leaves =~= want.branches[1].leaves);

    let shape = shape_branch(&palette.shape);
    let mut branches: Vec<Branch> = Vec::new();
    branches.push(filter);
    branches.push(rect);
    branches.push(shape);
    let d = Drawing { attributes, branches };
    assert(d@.branches =~= want.branches);
    d
}

/// The text of an element without children.
pub open spec fn leaf_text(leaf: LeafView) -> Seq<char> {
    svg_text(leaf.tag, assigned(no_attributes(), leaf.attributes), Seq::empty())
}

/// The text of an element whose children have none.
pub open spec fn branch_text(branch: BranchView) -> Seq<char> {
    svg_text(
        branch.tag,
        assigned(no_attributes(), branch.attributes),
        Seq::new(branch.leaves.len(), |i: int| leaf_text(branch.leaves[i])),
    )
}

/// The text of an image: an svg document with the image's attributes set
/// on top of the namespace, and its elements appended in their order.
pub open spec fn drawing_text(drawing: DrawingView) -> Seq<char> {
    svg_text(
        "svg"@,
        assigned(namespace(), drawing.attributes),
        Seq::new(drawing.branches.len(), |i: int| branch_text(drawing.branches[i])),
    )
}

fn set_all(element: &mut Element, attributes: &Vec<Attribute>)
    ensures
        element_tag(*final(element)) == element_tag(*old(element)),
        element_attributes(*final(element)) == assigned(
            element_attributes(*old(element)),
            pairs(attributes@),
        ),
        element_children(*final(element)) == element_children(*old(element)),
{
    let mut i: usize = 0;
    while i < attributes.len()
        invariant
            i <= attributes.len(),
            element_tag(*element) == element_tag(*old(element)),
            element_attributes(*element) == assigned(
                element_attributes(*old(element)),
                pairs(attributes@).take(i as int),
            ),
            element_children(*element) == element_children(*old(element)),
        decreases attributes.len() - i,
    {
        element_set(element, attributes[i].name.as_str(), attributes[i].value.as_str());
        proof {
            let all = pairs(attributes@);
            assert(all.take(i as int + 1).drop_last() =~= all.take(i as int));
            assert(all.take(i as int + 1).last() == all[i as int]);
        }
        i += 1;
    }
    assert(pairs(attributes@).take(attributes.len() as int) =~= pairs(attributes@));
}

fn leaf_element(leaf: &Leaf) -> (e: Element)
    ensures
        markup_of(e) == leaf_text(leaf@),
{
    let mut e = element_new(leaf.tag.as_str());
    set_all(&mut e, &leaf.attributes);
    e
}

fn branch_element(branch: &Branch) -> (e: Element)
    ensures
        markup_of(e) == branch_text(branch@),
{
    let mut e = element_new(branch.tag.as_str());
    set_all(&mut e, &branch.attributes);
    let ghost want = Seq::new(branch@.leaves.len(), |i: int| leaf_text(branch@.leaves[i]));
    let mut l: usize = 0;
    assert(element_children(e) =~= want.take(0));
    while l < branch.leaves.len()
        invariant
            l <= branch.leaves.len(),
            want == Seq::new(branch@.leaves.len(), |i: int| leaf_text(branch@.leaves[i])),
            element_tag(e) == branch@.tag,
            element_attributes(e) == assigned(no_attributes(), branch@.attributes),
            element_children(e) == want.take(l as int),
        decreases branch.leaves.len() - l,
    {
        let child = leaf_element(&branch.leaves[l]);
        element_add(&mut e, child);
        proof {
            assert(branch@.leaves[l as int] == branch.leaves@[l as int]@);
            assert(want.take(l as int + 1) =~= want.take(l as int).push(want[l as int]));
        }
        l += 1;
    }
    assert(want.take(branch.leaves.len() as int) =~= want);
    e
}

/// Writes `drawing` as SVG: see [`drawing_text`].
pub fn render(drawing: &Drawing) -> (markup: String)
    ensures
        markup@ == drawing_text(drawing@),
{
    let mut document = document_root();
    set_all(&mut document, &drawing.attributes);
    let ghost want = Seq::new(drawing@.branches.len(), |i: int| branch_text(drawing@.branches[i]));
    let mut b: usize = 0;
    assert(element_children(document) =~= want.take(0));
    while b < drawing.branches.len()
        invariant
            b <= drawing.branches.len(),
            want == Seq::new(
                drawing@.branches.len(),
                |i: int| branch_text(drawing@.branches[i]),
            ),
            element_tag(document) == "svg"@,
            element_attributes(document) == assigned(namespace(), drawing@.attributes),
            element_children(document) == want.take(b as int),
        decreases drawing.branches.len() - b,
    {
        let element = branch_element(&drawing.branches[b]);
        element_add(&mut document, element);
        proof {
            assert(drawing@.branches[b as int] == drawing.branches@[b as int]@);
            assert(want.take(b as int + 1) =~= want.take(b as int).push(want[b as int]));
        }
        b += 1;
    }
    assert(want.take(drawing.branches.len() as int) =~= want);
    element_text(&document)
}

fn draw_random(circle: bool) -> (r: Option<Drawing>)
    ensures
        r matches Some(d) ==> exists|p: Palette|
            p.wf() && (p.shape is Circle) == circle && d@ == drawing_of(p),
{
    let hue = match random_in(0, 360) {
        Some(n) => n,
        None => { return None; },
    };
    let saturation = match random_in(75, 100) {
        Some(n) => n,
        None => { return None; },
    };
    let lightness = match random_in(40, 50) {
        Some(n) => n,
        None => { return None; },
    };
    let shape = if circle {
        match random_in(25, 40) {
            Some(radius) => Shape::Circle { radius },
            None => { return None; },
        }
    } else {
        Shape::Square
    };
    let palette = Palette { hue, saturation, lightness, shape };
    let d = draw(&palette);
    assert(palette.wf() && (palette.shape is Circle) == circle && d@ == drawing_of(palette));
    Some(d)
}

/// The icon of a new room, in random colours: a square on a gradient. `None`
/// where no randomness is to be had.
pub fn create_chat_icon() -> (r: Option<Drawing>)
    ensures
        r matches Some(d) ==> exists|p: Palette|
            p.wf() && p.shape is Square && d@ == drawing_of(p),
{
    match draw_random(false) {
        Some(d) => {
            let ghost p = choose|p: Palette|
                p.wf() && (p.shape is Circle) == false && d@ == drawing_of(p);
            assert(p.wf() && p.shape is Square && d@ == drawing_of(p));
            Some(d)
        },
        None => None,
    }
}

/// The avatar of a new user, in random colours: a circle of random size on a
/// gradient. `None` where no randomness is to be had.
pub fn create_avatar() -> (r: Option<Drawing>)
    ensures
        r matches Some(d) ==> exists|p: Palette|
            p.wf() && p.shape is Circle && d@ == drawing_of(p),
{
    draw_random(true)
}

} // verus!
