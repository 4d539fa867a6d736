use vstd::prelude::*;

verus! {

/// A UI element: the id of its transform, and its text if it has a text component.
#[derive(Debug)]
pub struct UiElement {
    pub id: String,
    pub text: Option<String>,
}

/// The mathematical value of a `UiElement`.
pub struct ElementView {
    pub id: Seq<char>,
    pub text: Option<Seq<char>>,
}

impl View for UiElement {
    type V = ElementView;

    open spec fn view(&self) -> ElementView {
        ElementView {
            id: self.id@,
            text: match self.text {
                Some(t) => Some(t@),
                None => None,
            },
        }
    }
}

/// The UI elements of a world, in the order in which the world holds its entities.
/// Ids need not be distinct: a lookup by id finds the first element that has it.
#[derive(Debug)]
pub struct UiScene {
    pub elements: Vec<UiElement>,
}

impl View for UiScene {
    type V = Seq<ElementView>;

    open spec fn view(&self) -> Seq<ElementView> {
        self.elements@.map_values(|e: UiElement| e@)
    }
}

/// `i` is the first position in `s` whose element has the id `id`.
pub open spec fn is_first_with_id(s: Seq<ElementView>, id: Seq<char>, i: int) -> bool {
    &&& 0 <= i < s.len()
    &&& s[i].id == id
    &&& forall|j: int| 0 <= j < i ==> s[j].id != id
}

/// No element of `s` has the id `id`.
pub open spec fn has_no_id(s: Seq<ElementView>, id: Seq<char>) -> bool {
    forall|j: int| 0 <= j < s.len() ==> s[j].id != id
}

impl UiScene {
    /// A scene with no elements.
    pub fn new() -> (r: UiScene)
        ensures
            r@ == Seq::<ElementView>::empty(),
    {
        UiScene { elements: Vec::new() }
    }

    /// Adds an element after all the others.
    pub fn push(&mut self, id: String, text: Option<String>)
        ensures
            final(self)@ == old(self)@.push((UiElement { id, text })@),
    {
        let e = UiElement { id, text };
        self.elements.push(e);
        assert(self@ =~= old(self)@.push(e@));
    }

    /// The number of elements.
    pub fn len(&self) -> (r: usize)
        ensures
            r == self@.len(),
    {
        self.elements.len()
    }

    /// The position of the first element whose id is `id`, if there is one.
    pub fn find(&self, id: &str) -> (r: Option<usize>)
        ensures
            match r {
                Some(i) => is_first_with_id(self@, id@, i as int),
                None => has_no_id(self@, id@),
            },
    {
        let target = id.to_owned();
        let mut i: usize = 0;
        while i < self.elements.len()
            invariant
                i <= self.elements.len(),
                target@ == id@,
                has_no_id(self@.take(i as int), id@),
            decreases self.elements.len() - i,
        {
            if self.elements[i].id == target {
                assert(self@[i as int].id == id@);
                assert forall|j: int| 0 <= j < i implies self@[j].id != id@ by {
                    assert(self@.take(i as int)[j] == self@[j]);
                }
                return Some(i);
            }
            assert(self@.take(i as int + 1) =~= self@.take(i as int).push(self@[i as int]));
            i = i + 1;
        }
        assert(self@.take(i as int) =~= self@);
        None
    }

    /// The text of the element at `index`, if it has one.
    pub fn text_at(&self, index: usize) -> (r: Option<String>)
        requires
            index < self@.len(),
        ensures
            match r {
                Some(t) => self@[index as int].text == Some(t@),
                None => self@[index as int].text is None,
            },
    {
        self.elements[index].text.clone()
    }

    /// Gives the element at `index` the text `text`, keeping its id.
    pub fn set_text(&mut self, index: usize, text: String)
        requires
            index < old(self)@.len(),
        ensures
            final(self)@ == old(self)@.update(
                index as int,
                (ElementView { id: old(self)@[index as int].id, text: Some(text@) }),
            ),
    {
        let id = self.elements[index].id.clone();
        let e = UiElement { id, text: Some(text) };
        self.elements.set(index, e);
        assert(self@ =~= old(self)@.update(index as int, e@));
    }
}

} // verus!
