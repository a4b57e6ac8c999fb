//! Models in a subset of the OBJ text format: vertex coordinates, normals,
//! texture coordinates and triangular faces, one item a line.

use vstd::prelude::*;
use vstd::slice::slice_subrange;
use crate::number::{
    denominator_of, is_number, lemma_denominator_is_positive, numerator_of, parse_number, Number,
};
use crate::text::{
    find_stop, first_stop, int_token, lemma_first_stop, next_word, parse_int, CharSplits, Stop,
    Words,
};

verus! {

/// A point in space, or a direction.
#[derive(Debug, PartialEq, Eq)]
pub struct VertexCoord {
    pub x: Number,
    pub y: Number,
    pub z: Number,
}

/// One minus a number: it stands for `1 - v`, where `v` is the number that
/// it holds.
#[derive(Debug, PartialEq, Eq)]
pub struct OneMinus(pub Number);

/// A point on a texture. The text gives it as `u v`, counted from the
/// bottom; it is kept counted from the top, as `(u, 1 - v)`.
#[derive(Debug, PartialEq, Eq)]
pub struct TextureCoord {
    pub x: Number,
    pub y: OneMinus,
}

/// The tokens of a [`VertexCoord`].
pub struct VertexCoordData {
    pub x: Seq<u8>,
    pub y: Seq<u8>,
    pub z: Seq<u8>,
}

/// The tokens of a [`TextureCoord`]: that of `x`, and that of the number
/// `v` of which `y` is `1 - v`.
pub struct TextureCoordData {
    pub x: Seq<u8>,
    pub y_one_minus: Seq<u8>,
}

impl View for VertexCoord {
    type V = VertexCoordData;

    open spec fn view(&self) -> VertexCoordData {
        VertexCoordData { x: self.x@, y: self.y@, z: self.z@ }
    }
}

impl View for TextureCoord {
    type V = TextureCoordData;

    open spec fn view(&self) -> TextureCoordData {
        TextureCoordData { x: self.x@, y_one_minus: self.y.0@ }
    }
}

impl VertexCoordData {
    /// Each of the three tokens is a number.
    pub open spec fn wf(self) -> bool {
        is_number(self.x) && is_number(self.y) && is_number(self.z)
    }
}

impl TextureCoordData {
    /// Each of the two tokens is a number.
    pub open spec fn wf(self) -> bool {
        is_number(self.x) && is_number(self.y_one_minus)
    }

    /// The numerator of `y`, over [`TextureCoordData::y_denominator`]: one
    /// minus the number that the text gives.
    pub open spec fn y_numerator(self) -> int {
        denominator_of(self.y_one_minus) - numerator_of(self.y_one_minus)
    }

    /// The denominator of `y`.
    pub open spec fn y_denominator(self) -> nat {
        denominator_of(self.y_one_minus)
    }
}

impl VertexCoord {
    /// Another coordinate with the same tokens.
    pub fn duplicate(&self) -> (copy: VertexCoord)
        ensures
            copy@ == self@,
    {
        VertexCoord { x: self.x.duplicate(), y: self.y.duplicate(), z: self.z.duplicate() }
    }
}

impl TextureCoord {
    /// Another texture coordinate with the same tokens.
    pub fn duplicate(&self) -> (copy: TextureCoord)
        ensures
            copy@ == self@,
    {
        TextureCoord { x: self.x.duplicate(), y: OneMinus(self.y.0.duplicate()) }
    }
}

/// A triangle: for each of its three corners the number of a coordinate, of
/// a texture coordinate and of a normal, each counted from 1.
#[derive(Clone, Copy, Debug, PartialEq, Eq)]
pub struct Face {
    pub vertex: [i32; 3],
    pub texture: [i32; 3],
    pub normal: [i32; 3],
}

/// Why a text is no model. Nothing can be made of a text with such a
/// defect: the caller reports it and gives up.
#[derive(Clone, Copy, Debug, PartialEq, Eq, Structural)]
pub enum ObjError {
    /// A line or a face corner ends where a number is expected.
    MissingWord,
    /// A token that should be a number is none.
    NotANumber,
    /// A face does not have exactly three corners.
    NotATriangle,
    /// A face names an item that the model does not have.
    IndexOutOfRange,
}

/// The separator between the numbers of a face corner: `/`.
pub const SLASH: u8 = 47;

/// The separator between lines.
pub const NEWLINE: u8 = 10;

/// The byte that begins a comment: `#`.
pub const HASH: u8 = 35;

/// A model: what the lines of a text have given so far.
#[derive(Debug)]
pub struct Model {
    pub coords: Vec<VertexCoord>,
    pub normals: Vec<VertexCoord>,
    pub texture_coords: Vec<TextureCoord>,
    pub faces: Vec<Face>,
}

/// The contents of a model.
pub struct ModelData {
    pub coords: Seq<VertexCoordData>,
    pub normals: Seq<VertexCoordData>,
    pub texture_coords: Seq<TextureCoordData>,
    pub faces: Seq<Face>,
}

/// The tokens of a run of coordinates.
pub open spec fn coords_view(s: Seq<VertexCoord>) -> Seq<VertexCoordData> {
    Seq::new(s.len(), |i: int| s[i]@)
}

/// The tokens of a run of texture coordinates.
pub open spec fn texture_coords_view(s: Seq<TextureCoord>) -> Seq<TextureCoordData> {
    Seq::new(s.len(), |i: int| s[i]@)
}

impl View for Model {
    type V = ModelData;

    open spec fn view(&self) -> ModelData {
        ModelData {
            coords: coords_view(self.coords@),
            normals: coords_view(self.normals@),
            texture_coords: texture_coords_view(self.texture_coords@),
            faces: self.faces@,
        }
    }
}

impl ModelData {
    /// Every token of the model is a number.
    pub open spec fn wf(self) -> bool {
        &&& forall|i: int| 0 <= i < self.coords.len() ==> (#[trigger] self.coords[i]).wf()
        &&& forall|i: int| 0 <= i < self.normals.len() ==> (#[trigger] self.normals[i]).wf()
        &&& forall|i: int|
            0 <= i < self.texture_coords.len() ==> (#[trigger] self.texture_coords[i]).wf()
    }
}

/// What reading a text gives: the model as far as it was read, and the
/// defect that ended the reading, if one did.
pub struct ReadOutcome {
    pub model: ModelData,
    pub error: Option<ObjError>,
}

/// Where the cursor stands once the next word of `line` at or after `pos`
/// has been taken: behind that word, or at the end of the line where there
/// is no further word.
pub open spec fn after_word(line: Seq<u8>, pos: int) -> int {
    match next_word(line, pos) {
        Some((_, end)) => end,
        None => line.len() as int,
    }
}

/// The number that the next word of `line` at or after `pos` spells.
pub open spec fn parse_word_spec(line: Seq<u8>, pos: int) -> Result<Seq<u8>, ObjError> {
    match next_word(line, pos) {
        None => Err(ObjError::MissingWord),
        Some((start, end)) => if is_number(line.subrange(start, end)) {
            Ok(line.subrange(start, end))
        } else {
            Err(ObjError::NotANumber)
        },
    }
}

/// The integer that the field of `text` from `pos` to the next `sep` spells.
pub open spec fn parse_field_spec(text: Seq<u8>, pos: int, sep: u8) -> Result<i32, ObjError> {
    match int_token(text.subrange(pos, first_stop(text, pos, Stop::Byte(sep)))) {
        Some(number) => Ok(number),
        None => Err(ObjError::NotANumber),
    }
}

/// Three numbers from `line` at or after `pos`, and where the cursor stands
/// afterwards: behind the third word, or behind the word that was no
/// number, or at the end of the line where a word is missing. What follows
/// the third word on the line does not count.
pub open spec fn read_v_or_vn_spec(line: Seq<u8>, pos: int) -> (Result<VertexCoordData, ObjError>, int) {
    let after_x = after_word(line, pos);
    let after_y = after_word(line, after_x);
    let after_z = after_word(line, after_y);
    match parse_word_spec(line, pos) {
        Err(e) => (Err(e), after_x),
        Ok(x) => match parse_word_spec(line, after_x) {
            Err(e) => (Err(e), after_y),
            Ok(y) => match parse_word_spec(line, after_y) {
                Err(e) => (Err(e), after_z),
                Ok(z) => (Ok(VertexCoordData { x, y, z }), after_z),
            },
        },
    }
}

/// Two numbers `u v` from `line` at or after `pos`, kept as `(u, 1 - v)`,
/// and where the cursor stands afterwards: behind the second word, or
/// behind the word that was no number, or at the end of the line where a
/// word is missing.
pub open spec fn read_vt_spec(line: Seq<u8>, pos: int) -> (Result<TextureCoordData, ObjError>, int) {
    let after_x = after_word(line, pos);
    let after_y = after_word(line, after_x);
    match parse_word_spec(line, pos) {
        Err(e) => (Err(e), after_x),
        Ok(x) => match parse_word_spec(line, after_x) {
            Err(e) => (Err(e), after_y),
            Ok(y) => (Ok(TextureCoordData { x, y_one_minus: y }), after_y),
        },
    }
}

/// The three numbers of one face corner, `vertex/texture/normal`. What
/// follows a third `/` does not count.
pub open spec fn read_corner_spec(group: Seq<u8>) -> Result<(i32, i32, i32), ObjError> {
    let end_v = first_stop(group, 0, Stop::Byte(SLASH));
    match parse_field_spec(group, 0, SLASH) {
        Err(e) => Err(e),
        Ok(vertex) => if end_v >= group.len() {
            Err(ObjError::MissingWord)
        } else {
            let end_t = first_stop(group, end_v + 1, Stop::Byte(SLASH));
            match parse_field_spec(group, end_v + 1, SLASH) {
                Err(e) => Err(e),
                Ok(texture) => if end_t >= group.len() {
                    Err(ObjError::MissingWord)
                } else {
                    match parse_field_spec(group, end_t + 1, SLASH) {
                        Err(e) => Err(e),
                        Ok(normal) => Ok((vertex, texture, normal)),
                    }
                },
            }
        },
    }
}

/// The corner that the next word of `line` at or after `pos` spells. A line
/// that has no further word is no triangle.
pub open spec fn next_corner_spec(line: Seq<u8>, pos: int) -> Result<(i32, i32, i32), ObjError> {
    match next_word(line, pos) {
        None => Err(ObjError::NotATriangle),
        Some((start, end)) => read_corner_spec(line.subrange(start, end)),
    }
}

/// The face that `line` spells at or after `pos`, exactly three corners,
/// and where the cursor stands afterwards: behind the word that was no
/// corner; or, after three corners, behind the fourth word, which makes the
/// line no triangle, or at the end of the line where there is none.
pub open spec fn read_f_spec(line: Seq<u8>, pos: int) -> (Result<Face, ObjError>, int) {
    let after_a = after_word(line, pos);
    let after_b = after_word(line, after_a);
    let after_c = after_word(line, after_b);
    match next_corner_spec(line, pos) {
        Err(e) => (Err(e), after_a),
        Ok(a) => match next_corner_spec(line, after_a) {
            Err(e) => (Err(e), after_b),
            Ok(b) => match next_corner_spec(line, after_b) {
                Err(e) => (Err(e), after_c),
                Ok(c) => if next_word(line, after_c) is Some {
                    (Err(ObjError::NotATriangle), after_word(line, after_c))
                } else {
                    (
                        Ok(
                            Face {
                                vertex: [a.0, b.0, c.0],
                                texture: [a.1, b.1, c.1],
                                normal: [a.2, b.2, c.2],
                            },
                        ),
                        after_word(line, after_c),
                    )
                },
            },
        },
    }
}

/// The model after one more line. A line without a word, a line whose
/// first word begins with `#`, and a line whose first word is none of `v`,
/// `vn`, `vt` and `f` change nothing.
pub open spec fn read_line_spec(model: ModelData, line: Seq<u8>) -> Result<ModelData, ObjError> {
    match next_word(line, 0) {
        None => Ok(model),
        Some((start, end)) => {
            let tag = line.subrange(start, end);
            if tag[0] == HASH {
                Ok(model)
            } else if tag == seq![118u8] {
                match read_v_or_vn_spec(line, end).0 {
                    Err(e) => Err(e),
                    Ok(v) => Ok(ModelData { coords: model.coords.push(v), ..model }),
                }
            } else if tag == seq![118u8, 110u8] {
                match read_v_or_vn_spec(line, end).0 {
                    Err(e) => Err(e),
                    Ok(v) => Ok(ModelData { normals: model.normals.push(v), ..model }),
                }
            } else if tag == seq![118u8, 116u8] {
                match read_vt_spec(line, end).0 {
                    Err(e) => Err(e),
                    Ok(v) => Ok(
                        ModelData { texture_coords: model.texture_coords.push(v), ..model },
                    ),
                }
            } else if tag == seq![102u8] {
                match read_f_spec(line, end).0 {
                    Err(e) => Err(e),
                    Ok(v) => Ok(ModelData { faces: model.faces.push(v), ..model }),
                }
            } else {
                Ok(model)
            }
        },
    }
}

/// The model after the lines of `text` from `pos` on, read until the text
/// ends or a line has a defect.
pub open spec fn read_from(model: ModelData, text: Seq<u8>, pos: int) -> ReadOutcome
    decreases text.len() - pos,
{
    if pos < 0 || pos > text.len() {
        ReadOutcome { model, error: None }
    } else {
        let end = first_stop(text, pos, Stop::Byte(NEWLINE));
        match read_line_spec(model, text.subrange(pos, end)) {
            Err(e) => ReadOutcome { model, error: Some(e) },
            Ok(next) => if end >= text.len() {
                ReadOutcome { model: next, error: None }
            } else {
                proof {
                    lemma_first_stop(text, pos, Stop::Byte(NEWLINE));
                }
                read_from(next, text, end + 1)
            },
        }
    }
}

/// A texture coordinate and the number that the text gives for it add up
/// to one: the second coordinate of `u v` is kept as `1 - v`.
pub proof fn lemma_flip_adds_up_to_one(coord: TextureCoordData)
    ensures
        coord.y_numerator() + numerator_of(coord.y_one_minus) == coord.y_denominator(),
        coord.y_denominator() == denominator_of(coord.y_one_minus),
        coord.y_denominator() > 0,
{
    lemma_denominator_is_positive(coord.y_one_minus);
}

/// A line puts nothing but numbers into a model.
pub proof fn lemma_read_line_keeps_numbers(model: ModelData, line: Seq<u8>)
    requires
        model.wf(),
    ensures
        read_line_spec(model, line) is Ok ==> read_line_spec(model, line)->Ok_0.wf(),
{
}

/// A text puts nothing but numbers into a model, however far it is read.
pub proof fn lemma_read_keeps_numbers(model: ModelData, text: Seq<u8>, pos: int)
    requires
        model.wf(),
    ensures
        read_from(model, text, pos).model.wf(),
    decreases text.len() - pos,
{
    if 0 <= pos <= text.len() {
        let end = first_stop(text, pos, Stop::Byte(NEWLINE));
        let line = text.subrange(pos, end);
        lemma_read_line_keeps_numbers(model, line);
        if read_line_spec(model, line) is Ok && end < text.len() {
            lemma_first_stop(text, pos, Stop::Byte(NEWLINE));
            lemma_read_keeps_numbers(read_line_spec(model, line)->Ok_0, text, end + 1);
        }
    }
}

/// The next word of a line, as a number. The cursor moves behind that
/// word, whether it was a number or not.
pub fn parse_word(words: &mut Words) -> (res: Result<Number, ObjError>)
    requires
        old(words).wf(),
    ensures
        final(words).wf(),
        final(words).line == old(words).line,
        final(words).pos == after_word(old(words).line@, old(words).pos as int),
        match parse_word_spec(old(words).line@, old(words).pos as int) {
            Ok(token) => res is Ok && res->Ok_0@ == token && res->Ok_0.wf(),
            Err(e) => res is Err && res->Err_0 == e,
        },
{
    match words.next() {
        None => Err(ObjError::MissingWord),
        Some(word) => match parse_number(word) {
            Some(number) => Ok(number),
            None => Err(ObjError::NotANumber),
        },
    }
}

/// The next field of a token, as an integer.
pub fn parse_charsplit(words: &mut CharSplits) -> (res: Result<i32, ObjError>)
    requires
        old(words).wf(),
    ensures
        final(words).wf(),
        final(words).text == old(words).text,
        final(words).sep == old(words).sep,
        old(words).finished ==> res == Err::<i32, ObjError>(ObjError::MissingWord) && *final(words)
            == *old(words),
        !old(words).finished ==> ({
            let end = first_stop(
                old(words).text@,
                old(words).pos as int,
                Stop::Byte(old(words).sep),
            );
            &&& res == parse_field_spec(old(words).text@, old(words).pos as int, old(words).sep)
            &&& final(words).finished == (end == old(words).text@.len())
            &&& final(words).pos == if end == old(words).text@.len() {
                end
            } else {
                end + 1
            }
        }),
{
    match words.next() {
        None => Err(ObjError::MissingWord),
        Some(field) => match parse_int(field) {
            Some(number) => Ok(number),
            None => Err(ObjError::NotANumber),
        },
    }
}

/// Whether `tag` is the one byte `a`.
fn is_tag(tag: &[u8], a: u8) -> (res: bool)
    ensures
        res == (tag@ == seq![a]),
{
    let res: bool = tag.len() == 1 && tag[0] == a;
    proof {
        if res {
            assert(tag@ =~= seq![a]);
        } else if tag@ == seq![a] {
            assert(seq![a].len() == 1);
            assert(seq![a][0] == a);
        }
    }
    res
}

/// Whether `tag` is the two bytes `a`, `b`.
fn is_tag2(tag: &[u8], a: u8, b: u8) -> (res: bool)
    ensures
        res == (tag@ == seq![a, b]),
{
    let res: bool = tag.len() == 2 && tag[0] == a && tag[1] == b;
    proof {
        if res {
            assert(tag@ =~= seq![a, b]);
        } else if tag@ == seq![a, b] {
            assert(seq![a, b].len() == 2);
            assert(seq![a, b][0] == a);
            assert(seq![a, b][1] == b);
        }
    }
    res
}

/// Every face names three coordinates that the model has.
pub open spec fn vertex_indices_ok(model: ModelData) -> bool {
    forall|f: int, i: int|
        0 <= f < model.faces.len() && 0 <= i < 3 ==> 1 <= #[trigger] model.faces[f].vertex[i]
            <= model.coords.len()
}

/// Every face names three texture coordinates that the model has.
pub open spec fn texture_indices_ok(model: ModelData) -> bool {
    forall|f: int, i: int|
        0 <= f < model.faces.len() && 0 <= i < 3 ==> 1 <= #[trigger] model.faces[f].texture[i]
            <= model.texture_coords.len()
}

/// The coordinates of the corners of the faces, face by face and corner by
/// corner.
pub open spec fn build_spec(model: ModelData) -> Seq<VertexCoordData> {
    Seq::new(
        3 * model.faces.len(),
        |k: int| model.coords[model.faces[k / 3].vertex[k % 3] - 1],
    )
}

/// The texture coordinates of the corners of the faces, face by face and
/// corner by corner.
pub open spec fn build_tex_coord_spec(model: ModelData) -> Seq<TextureCoordData> {
    Seq::new(
        3 * model.faces.len(),
        |k: int| model.texture_coords[model.faces[k / 3].texture[k % 3] - 1],
    )
}

impl Model {
    /// A model without anything in it.
    pub fn empty() -> (model: Model)
        ensures
            model@ == Model::empty_data(),
    {
        let model = Model {
            coords: Vec::new(),
            normals: Vec::new(),
            texture_coords: Vec::new(),
            faces: Vec::new(),
        };
        proof {
            assert(model@.coords =~= Seq::empty());
            assert(model@.normals =~= Seq::empty());
            assert(model@.texture_coords =~= Seq::empty());
            assert(model@.faces =~= Seq::empty());
        }
        model
    }

    /// The model that `text` spells, or the first defect of `text`.
    pub fn new(text: &[u8]) -> (res: Result<Model, ObjError>)
        ensures
            match read_from(Model::empty_data(), text@, 0).error {
                None => res is Ok && res->Ok_0@ == read_from(Model::empty_data(), text@, 0).model,
                Some(e) => res is Err && res->Err_0 == e,
            },
    {
        let mut obj = Model::empty();
        match obj.read(text) {
            Ok(()) => Ok(obj),
            Err(e) => Err(e),
        }
    }

    /// The contents of [`Model::empty`].
    pub open spec fn empty_data() -> ModelData {
        ModelData {
            coords: Seq::empty(),
            normals: Seq::empty(),
            texture_coords: Seq::empty(),
            faces: Seq::empty(),
        }
    }

    /// Reads the three numbers of a coordinate or of a normal: the next
    /// three words, in the order `x`, `y`, `z`.
    pub fn read_v_or_vn(words: &mut Words) -> (res: Result<VertexCoord, ObjError>)
        requires
            old(words).wf(),
        ensures
            final(words).wf(),
            final(words).line == old(words).line,
            final(words).pos == read_v_or_vn_spec(old(words).line@, old(words).pos as int).1,
            match read_v_or_vn_spec(old(words).line@, old(words).pos as int).0 {
                Ok(v) => res is Ok && res->Ok_0@ == v && v.wf(),
                Err(e) => res is Err && res->Err_0 == e,
            },
    {
        let x: Number = match parse_word(words) {
            Ok(number) => number,
            Err(e) => {
                return Err(e);
            },
        };
        let y: Number = match parse_word(words) {
            Ok(number) => number,
            Err(e) => {
                return Err(e);
            },
        };
        let z: Number = match parse_word(words) {
            Ok(number) => number,
            Err(e) => {
                return Err(e);
            },
        };
        Ok(VertexCoord { x, y, z })
    }

    /// Reads the two numbers of a texture coordinate, the next two words,
    /// and turns the second upside down.
    pub fn read_vt(words: &mut Words) -> (res: Result<TextureCoord, ObjError>)
        requires
            old(words).wf(),
        ensures
            final(words).wf(),
            final(words).line == old(words).line,
            final(words).pos == read_vt_spec(old(words).line@, old(words).pos as int).1,
            match read_vt_spec(old(words).line@, old(words).pos as int).0 {
                Ok(v) => res is Ok && res->Ok_0@ == v && v.wf(),
                Err(e) => res is Err && res->Err_0 == e,
            },
    {
        let x: Number = match parse_word(words) {
            Ok(number) => number,
            Err(e) => {
                return Err(e);
            },
        };
        let y: Number = match parse_word(words) {
            Ok(number) => number,
            Err(e) => {
                return Err(e);
            },
        };
        Ok(TextureCoord { x, y: OneMinus(y) })
    }

    /// Reads the three numbers of one corner of a face.
    pub fn read_corner(group: &[u8]) -> (res: Result<(i32, i32, i32), ObjError>)
        ensures
            res == read_corner_spec(group@),
    {
        let mut w = CharSplits::new(group, SLASH);
        let vertex: i32 = match parse_charsplit(&mut w) {
            Ok(number) => number,
            Err(e) => {
                return Err(e);
            },
        };
        let texture: i32 = match parse_charsplit(&mut w) {
            Ok(number) => number,
            Err(e) => {
                return Err(e);
            },
        };
        let normal: i32 = match parse_charsplit(&mut w) {
            Ok(number) => number,
            Err(e) => {
                return Err(e);
            },
        };
        Ok((vertex, texture, normal))
    }

    /// Reads the next corner of a face: the next word. The cursor moves
    /// behind that word, whether it was a corner or not.
    pub fn next_corner(words: &mut Words) -> (res: Result<(i32, i32, i32), ObjError>)
        requires
            old(words).wf(),
        ensures
            final(words).wf(),
            final(words).line == old(words).line,
            final(words).pos == after_word(old(words).line@, old(words).pos as int),
            res == next_corner_spec(old(words).line@, old(words).pos as int),
    {
        match words.next() {
            Some(group) => Model::read_corner(group),
            None => Err(ObjError::NotATriangle),
        }
    }

    /// Reads the three corners of a face: the next three words, and no
    /// fourth may follow them.
    pub fn read_f(words: &mut Words) -> (res: Result<Face, ObjError>)
        requires
            old(words).wf(),
        ensures
            final(words).wf(),
            final(words).line == old(words).line,
            final(words).pos == read_f_spec(old(words).line@, old(words).pos as int).1,
            res == read_f_spec(old(words).line@, old(words).pos as int).0,
    {
        let a: (i32, i32, i32) = match Model::next_corner(words) {
            Ok(corner) => corner,
            Err(e) => {
                return Err(e);
            },
        };
        let b: (i32, i32, i32) = match Model::next_corner(words) {
            Ok(corner) => corner,
            Err(e) => {
                return Err(e);
            },
        };
        let c: (i32, i32, i32) = match Model::next_corner(words) {
            Ok(corner) => corner,
            Err(e) => {
                return Err(e);
            },
        };
        if words.next().is_some() {
            return Err(ObjError::NotATriangle);
        }
        Ok(Face { vertex: [a.0, b.0, c.0], texture: [a.1, b.1, c.1], normal: [a.2, b.2, c.2] })
    }

    /// Reads one line into the model. A line with a defect changes nothing.
    pub fn read_line(&mut self, line: &[u8]) -> (res: Result<(), ObjError>)
        ensures
            match read_line_spec(old(self)@, line@) {
                Ok(model) => res is Ok && final(self)@ == model,
                Err(e) => res == Err::<(), ObjError>(e) && final(self)@ == old(self)@,
            },
    {
        let mut words = Words::new(line);
        let tag: &[u8] = match words.next() {
            Some(tag) => tag,
            None => {
                return Ok(());
            },
        };
        if tag[0] == HASH {
            return Ok(());
        }
        if is_tag(tag, 118) {
            match Model::read_v_or_vn(&mut words) {
                Ok(v) => {
                    self.coords.push(v);
                    proof {
                        assert(self@.coords =~= old(self)@.coords.push(v@));
                    }
                },
                Err(e) => {
                    return Err(e);
                },
            }
        } else if is_tag2(tag, 118, 110) {
            match Model::read_v_or_vn(&mut words) {
                Ok(v) => {
                    self.normals.push(v);
                    proof {
                        assert(self@.normals =~= old(self)@.normals.push(v@));
                    }
                },
                Err(e) => {
                    return Err(e);
                },
            }
        } else if is_tag2(tag, 118, 116) {
            match Model::read_vt(&mut words) {
                Ok(v) => {
                    self.texture_coords.push(v);
                    proof {
                        assert(self@.texture_coords =~= old(self)@.texture_coords.push(v@));
                    }
                },
                Err(e) => {
                    return Err(e);
                },
            }
        } else if is_tag(tag, 102) {
            match Model::read_f(&mut words) {
                Ok(v) => {
                    self.faces.push(v);
                },
                Err(e) => {
                    return Err(e);
                },
            }
        }
        Ok(())
    }

    /// Reads the lines of `text` into the model, one after the other, and
    /// stops at the first line with a defect: the model then holds what the
    /// lines before it gave.
    pub fn read(&mut self, text: &[u8]) -> (res: Result<(), ObjError>)
        ensures
            final(self)@ == read_from(old(self)@, text@, 0).model,
            match read_from(old(self)@, text@, 0).error {
                None => res is Ok,
                Some(e) => res == Err::<(), ObjError>(e),
            },
    {
        let mut pos: usize = 0;
        let mut res: Result<(), ObjError> = Ok(());
        let mut done: bool = false;
        while !done
            invariant
                pos <= text@.len(),
                !done ==> res is Ok,
                !done ==> read_from(old(self)@, text@, 0) == read_from(self@, text@, pos as int),
                done ==> self@ == read_from(old(self)@, text@, 0).model,
                done ==> match read_from(old(self)@, text@, 0).error {
                    None => res is Ok,
                    Some(e) => res == Err::<(), ObjError>(e),
                },
            decreases
                    (if done {
                        0
                    } else {
                        text@.len() - pos + 1
                    }),
        {
            let end: usize = find_stop(text, pos, Stop::Byte(NEWLINE));
            let line: &[u8] = slice_subrange(text, pos, end);
            match self.read_line(line) {
                Ok(()) => {
                    if end >= text.len() {
                        done = true;
                    } else {
                        pos = end + 1;
                    }
                },
                Err(e) => {
                    res = Err(e);
                    done = true;
                },
            }
        }
        res
    }

    /// The coordinates of the corners of all faces, in the order of the
    /// faces, ready to be drawn as triangles.
    pub fn build(&self) -> (res: Result<Vec<VertexCoord>, ObjError>)
        ensures
            match res {
                Ok(mesh) => vertex_indices_ok(self@) && coords_view(mesh@) == build_spec(self@),
                Err(e) => e == ObjError::IndexOutOfRange && !vertex_indices_ok(self@),
            },
    {
        let mut mesh: Vec<VertexCoord> = Vec::new();
        let mut f: usize = 0;
        while f < self.faces.len()
            invariant
                0 <= f <= self.faces@.len(),
                mesh@.len() == 3 * f,
                forall|g: int, i: int|
                    0 <= g < f && 0 <= i < 3 ==> 1 <= #[trigger] self.faces@[g].vertex[i]
                        <= self.coords@.len(),
                forall|k: int| 0 <= k < mesh@.len() ==> (#[trigger] mesh@[k])@ == build_spec(self@)[k],
            decreases self.faces@.len() - f,
        {
            let face: Face = self.faces[f];
            let mut i: usize = 0;
            while i < 3
                invariant
                    0 <= f < self.faces@.len(),
                    0 <= i <= 3,
                    face == self.faces@[f as int],
                    mesh@.len() == 3 * f + i,
                    forall|j: int| 0 <= j < i ==> 1 <= #[trigger] face.vertex[j] <= self.coords@.len(),
                    forall|k: int|
                        0 <= k < mesh@.len() ==> (#[trigger] mesh@[k])@ == build_spec(self@)[k],
                decreases 3 - i,
            {
                let vertex_id: i32 = face.vertex[i];
                if vertex_id < 1 || vertex_id as usize > self.coords.len() {
                    proof {
                        let model = self@;
                        assert(model.faces[f as int].vertex[i as int] == vertex_id);
                        assert(!(1 <= model.faces[f as int].vertex[i as int] <= model.coords.len()));
                    }
                    return Err(ObjError::IndexOutOfRange);
                }
                mesh.push(self.coords[(vertex_id - 1) as usize].duplicate());
                i = i + 1;
            }
            f = f + 1;
        }
        proof {
            assert forall|f: int, i: int| 0 <= f < self@.faces.len() && 0 <= i < 3 implies 1
                <= #[trigger] self@.faces[f].vertex[i] <= self@.coords.len() by {
                assert(1 <= self.faces@[f].vertex[i] <= self.coords@.len());
            }
            assert(coords_view(mesh@) =~= build_spec(self@));
        }
        Ok(mesh)
    }

    /// The texture coordinates of the corners of all faces, in the order of
    /// the faces.
    pub fn build_tex_coord(&self) -> (res: Result<Vec<TextureCoord>, ObjError>)
        ensures
            match res {
                Ok(tex_coords) => texture_indices_ok(self@) && texture_coords_view(tex_coords@)
                    == build_tex_coord_spec(self@),
                Err(e) => e == ObjError::IndexOutOfRange && !texture_indices_ok(self@),
            },
    {
        let mut tex_coords: Vec<TextureCoord> = Vec::new();
        let mut f: usize = 0;
        while f < self.faces.len()
            invariant
                0 <= f <= self.faces@.len(),
                tex_coords@.len() == 3 * f,
                forall|g: int, i: int|
                    0 <= g < f && 0 <= i < 3 ==> 1 <= #[trigger] self.faces@[g].texture[i]
                        <= self.texture_coords@.len(),
                forall|k: int|
                    0 <= k < tex_coords@.len() ==> (#[trigger] tex_coords@[k])@
                        == build_tex_coord_spec(self@)[k],
            decreases self.faces@.len() - f,
        {
            let face: Face = self.faces[f];
            let mut i: usize = 0;
            while i < 3
                invariant
                    0 <= f < self.faces@.len(),
                    0 <= i <= 3,
                    face == self.faces@[f as int],
                    tex_coords@.len() == 3 * f + i,
                    forall|j: int|
                        0 <= j < i ==> 1 <= #[trigger] face.texture[j]
                            <= self.texture_coords@.len(),
                    forall|k: int|
                        0 <= k < tex_coords@.len() ==> (#[trigger] tex_coords@[k])@
                            == build_tex_coord_spec(self@)[k],
                decreases 3 - i,
            {
                let texture_coord_id: i32 = face.texture[i];
                if texture_coord_id < 1 || texture_coord_id as usize > self.texture_coords.len() {
                    proof {
                        let model = self@;
                        assert(model.faces[f as int].texture[i as int] == texture_coord_id);
                        assert(!(1 <= model.faces[f as int].texture[i as int]
                            <= model.texture_coords.len()));
                    }
                    return Err(ObjError::IndexOutOfRange);
                }
                tex_coords.push(self.texture_coords[(texture_coord_id - 1) as usize].duplicate());
                i = i + 1;
            }
            f = f + 1;
        }
        proof {
            assert forall|f: int, i: int| 0 <= f < self@.faces.len() && 0 <= i < 3 implies 1
                <= #[trigger] self@.faces[f].texture[i] <= self@.texture_coords.len() by {
                assert(1 <= self.faces@[f].texture[i] <= self.texture_coords@.len());
            }
            assert(texture_coords_view(tex_coords@) =~= build_tex_coord_spec(self@));
        }
        Ok(tex_coords)
    }
}

} // verus!
