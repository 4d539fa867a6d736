use vstd::prelude::*;

use crate::event::{
    close_requested, is_close_requested, is_key_down, key_down, StateEvent, Trans, ESCAPE,
};
use crate::ui::{has_no_id, is_first_with_id, ElementView, UiScene};

verus! {

/// The name of the UI layout that the state asks for when it starts.
pub open spec fn ui_layout() -> Seq<char> {
    "minimal.ron"@
}

/// The id of the label that the state rewrites on every frame.
pub open spec fn label_id() -> Seq<char> {
    "some_text"@
}

/// The text that the label is given.
pub open spec fn label_text() -> Seq<char> {
    "OH HAI"@
}

/// The scene after one frame: the first element with the label's id, where it
/// has a text, gets the label's text; every other element stays as it was.
pub open spec fn relabelled(s: Seq<ElementView>) -> Seq<ElementView> {
    Seq::new(
        s.len(),
        |i: int|
            if is_first_with_id(s, label_id(), i) && s[i].text is Some {
                ElementView { id: s[i].id, text: Some(label_text()) }
            } else {
                s[i]
            },
    )
}

/// The one running state of the demo. It holds no data.
#[derive(Clone, Copy, Debug, Default)]
pub struct Example;

impl Example {
    /// Called when the state becomes active: returns the name of the UI
    /// layout to create.
    pub fn on_start(&mut self) -> (layout: String)
        ensures
            layout@ == ui_layout(),
    {
        "minimal.ron".to_owned()
    }

    /// Decides what an event does: a close request or Escape going down ends
    /// the application; every other event, of the window, the UI or the input
    /// system, leaves it running.
    pub fn handle_event(&mut self, event: &StateEvent) -> (r: Trans)
        ensures
            match *event {
                StateEvent::Window(w) => r == (if close_requested(w) || key_down(w, ESCAPE) {
                    Trans::Quit
                } else {
                    Trans::Continue
                }),
                StateEvent::Ui => r == Trans::Continue,
                StateEvent::Input => r == Trans::Continue,
            },
    {
        match event {
            StateEvent::Window(w) => {
                if is_close_requested(w) || is_key_down(w, ESCAPE) {
                    Trans::Quit
                } else {
                    Trans::Continue
                }
            },
            StateEvent::Ui => Trans::Continue,
            StateEvent::Input => Trans::Continue,
        }
    }

    /// Called once per frame: gives the first element with the label's id its
    /// text, where that element has a text. A scene without such an element is
    /// left as it is.
    pub fn update(&mut self, scene: &mut UiScene) -> (r: Trans)
        ensures
            r == Trans::Continue,
            final(scene)@ == relabelled(old(scene)@),
    {
        let found = scene.find("some_text");
        match found {
            Some(i) => {
                let current = scene.text_at(i);
                if current.is_some() {
                    scene.set_text(i, "OH HAI".to_owned());
                }
            },
            None => {},
        }
        proof {
            let s = old(scene)@;
            match found {
                Some(i) => {
                    assert forall|j: int| 0 <= j < s.len() && j != i implies !is_first_with_id(
                        s,
                        label_id(),
                        j,
                    ) by {
                        if j > i {
                            assert(s[i as int].id == label_id());
                        }
                    }
                },
                None => {},
            }
            assert(scene@ =~= relabelled(s));
        }
        Trans::Continue
    }
}

/// After a frame, the first element with the label's id, if it has a text,
/// holds the label's text, and every other element is unchanged.
pub proof fn lemma_update_sets_label(s: Seq<ElementView>, i: int)
    requires
        is_first_with_id(s, label_id(), i),
        s[i].text is Some,
    ensures
        relabelled(s).len() == s.len(),
        relabelled(s)[i].id == s[i].id,
        relabelled(s)[i].text == Some(label_text()),
        forall|j: int| 0 <= j < s.len() && j != i ==> relabelled(s)[j] == s[j],
{
    assert forall|j: int| 0 <= j < s.len() && j != i implies relabelled(s)[j] == s[j] by {
        if j > i {
            assert(s[i].id == label_id());
        }
    }
}

/// A second frame changes nothing that the first has not.
pub proof fn lemma_update_idempotent(s: Seq<ElementView>)
    ensures
        relabelled(relabelled(s)) == relabelled(s),
{
    let t = relabelled(s);
    assert forall|i: int| 0 <= i < s.len() implies #[trigger] is_first_with_id(t, label_id(), i)
        == is_first_with_id(s, label_id(), i) by {
        assert forall|j: int| 0 <= j <= i implies t[j].id == s[j].id by {}
    }
    assert(relabelled(t) =~= t);
}

/// A frame leaves a scene that has no element with the label's id unchanged.
pub proof fn lemma_update_without_label(s: Seq<ElementView>)
    requires
        has_no_id(s, label_id()),
    ensures
        relabelled(s) == s,
{
    assert(relabelled(s) =~= s);
}

/// A frame leaves an element that has no text unchanged, where it is the first
/// with the label's id.
pub proof fn lemma_update_label_without_text(s: Seq<ElementView>, i: int)
    requires
        is_first_with_id(s, label_id(), i),
        s[i].text is None,
    ensures
        relabelled(s) == s,
{
    assert forall|j: int| 0 <= j < s.len() && j != i implies !is_first_with_id(s, label_id(), j) by {
        if j > i {
            assert(s[i].id == label_id());
        }
    }
    assert(relabelled(s) =~= s);
}

} // verus!
