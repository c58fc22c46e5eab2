//! The form's state, and what a click on it changed.

use vstd::prelude::*;

verus! {

/// The form: three checkboxes and the name of the new project.
#[derive(Debug)]
pub struct CheckboxData {
    pub checkbox1: bool,
    pub checkbox2: bool,
    pub checkbox3: bool,
    pub new_project_name: String,
}

/// Remembers the checkboxes as they stood at the last click, to tell which
/// ones a click turned on.
pub struct CheckboxController {
    pub prev_data: CheckboxData,
}

/// The numbers of the checkboxes that went from off to on, in order.
pub open spec fn newly_checked(prev: CheckboxData, now: CheckboxData) -> Seq<u8> {
    let one: Seq<u8> = if !prev.checkbox1 && now.checkbox1 {
        seq![1u8]
    } else {
        Seq::empty()
    };
    let two: Seq<u8> = if !prev.checkbox2 && now.checkbox2 {
        seq![2u8]
    } else {
        Seq::empty()
    };
    let three: Seq<u8> = if !prev.checkbox3 && now.checkbox3 {
        seq![3u8]
    } else {
        Seq::empty()
    };
    one + two + three
}

impl CheckboxController {
    /// A controller that has seen every checkbox off and an empty name.
    pub fn new() -> (c: CheckboxController)
        ensures
            !c.prev_data.checkbox1,
            !c.prev_data.checkbox2,
            !c.prev_data.checkbox3,
            c.prev_data.new_project_name@ == Seq::<char>::empty(),
    {
        CheckboxController {
            prev_data: CheckboxData {
                checkbox1: false,
                checkbox2: false,
                checkbox3: false,
                new_project_name: String::new(),
            },
        }
    }

    /// Takes in the form as it stands after a click: returns the numbers of
    /// the checkboxes that the click turned on and remembers the checkboxes'
    /// states (the remembered name stays as it was).
    pub fn mouse_up(&mut self, data: &CheckboxData) -> (r: Vec<u8>)
        ensures
            r@ == newly_checked(old(self).prev_data, *data),
            final(self).prev_data.checkbox1 == data.checkbox1,
            final(self).prev_data.checkbox2 == data.checkbox2,
            final(self).prev_data.checkbox3 == data.checkbox3,
            final(self).prev_data.new_project_name == old(self).prev_data.new_project_name,
    {
        let mut r: Vec<u8> = Vec::new();
        if self.prev_data.checkbox1 != data.checkbox1 && data.checkbox1 {
            r.push(1);
        }
        if self.prev_data.checkbox2 != data.checkbox2 && data.checkbox2 {
            r.push(2);
        }
        if self.prev_data.checkbox3 != data.checkbox3 && data.checkbox3 {
            r.push(3);
        }
        assert(r@ =~= newly_checked(self.prev_data, *data));
        self.prev_data.checkbox1 = data.checkbox1;
        self.prev_data.checkbox2 = data.checkbox2;
        self.prev_data.checkbox3 = data.checkbox3;
        r
    }
}

} // verus!
