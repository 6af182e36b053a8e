//! The sidebar's buttons: an ordered list of labels of which at most one is
//! selected at any time.
use vstd::prelude::*;

verus! {

/// Identifier of the sidebar panel in the window layout.
pub const SIDE_BAR: &'static str = "side_bar";

/// Why a selection was refused.
#[derive(Debug, Clone, Copy, PartialEq, Eq, Structural)]
pub enum SelectError {
    /// The index names no button: it is at least `len`, the number of buttons.
    IndexOutOfRange { index: usize, len: usize },
}

/// Mathematical model of a sidebar: its title, the button labels in order, and
/// the position of the selected button, if any.
pub struct SideBarModel {
    pub title: Seq<char>,
    pub labels: Seq<Seq<char>>,
    pub selected: Option<int>,
}

impl SideBarModel {
    /// A sidebar with the given title and labels and no button selected.
    pub open spec fn unselected(title: Seq<char>, labels: Seq<Seq<char>>) -> SideBarModel {
        SideBarModel { title, labels, selected: None }
    }

    /// At most one button is selected, and it is one of the buttons.
    pub open spec fn well_formed(self) -> bool {
        match self.selected {
            Some(i) => 0 <= i < self.labels.len(),
            None => true,
        }
    }

    /// `index` names a button, so selecting it succeeds.
    pub open spec fn accepts(self, index: int) -> bool {
        0 <= index < self.labels.len()
    }

    /// The state after a selection of `index`: that button alone is selected
    /// when it exists, and nothing changes otherwise.
    pub open spec fn select(self, index: int) -> SideBarModel {
        if self.accepts(index) {
            SideBarModel { title: self.title, labels: self.labels, selected: Some(index) }
        } else {
            self
        }
    }

    /// Button `j` is the selected one.
    pub open spec fn is_selected(self, j: int) -> bool {
        self.selected == Some(j)
    }
}

/// The labels that a list of button names shows.
pub open spec fn labels_of(names: Seq<String>) -> Seq<Seq<char>> {
    names.map_values(|s: String| s@)
}

/// A sidebar: a title over a row of buttons, of which at most one is selected.
pub struct SideBar {
    title: String,
    button_names: Vec<String>,
    selected: Option<usize>,
}

impl SideBar {
    #[verifier::type_invariant]
    spec fn selection_in_range(self) -> bool {
        match self.selected {
            Some(i) => i < self.button_names.len(),
            None => true,
        }
    }
}

impl View for SideBar {
    type V = SideBarModel;

    closed spec fn view(&self) -> SideBarModel {
        SideBarModel {
            title: self.title@,
            labels: labels_of(self.button_names@),
            selected: match self.selected {
                Some(i) => Some(i as int),
                None => None,
            },
        }
    }
}

impl SideBar {
    /// A sidebar with the given title and buttons, none of them selected.
    pub fn new(title: String, names: Vec<String>) -> (r: SideBar)
        ensures
            r@ == SideBarModel::unselected(title@, labels_of(names@)),
    {
        SideBar { title, button_names: names, selected: None }
    }

    /// A sidebar with the given title and buttons, with button `initial`
    /// selected; an error when there is no such button.
    pub fn with_default(title: String, names: Vec<String>, initial: usize) -> (r: Result<
        SideBar,
        SelectError,
    >)
        ensures
            r is Ok <==> initial < names@.len(),
            r matches Ok(b) ==> b@ == SideBarModel::unselected(title@, labels_of(names@)).select(
                initial as int,
            ),
            r is Err ==> r == Err::<SideBar, SelectError>(
                (SelectError::IndexOutOfRange { index: initial, len: names@.len() as usize }),
            ),
    {
        let mut b = SideBar::new(title, names);
        match b.refresh_button(initial) {
            Ok(()) => Ok(b),
            Err(e) => Err(e),
        }
    }

    /// Marks button `index` as the selected one and every other button as not
    /// selected. An index past the last button is refused and changes nothing.
    pub fn refresh_button(&mut self, index: usize) -> (r: Result<(), SelectError>)
        ensures
            final(self)@ == old(self)@.select(index as int),
            r is Ok <==> old(self)@.accepts(index as int),
            r is Err ==> r == Err::<(), SelectError>(
                (SelectError::IndexOutOfRange { index, len: old(self)@.labels.len() as usize }),
            ),
    {
        let len = self.button_names.len();
        if index < len {
            self.selected = Some(index);
            Ok(())
        } else {
            Err(SelectError::IndexOutOfRange { index, len })
        }
    }
    /// Selects button `index`: the same operation as `refresh_button`, under
    /// the name a click handler reads best with.
    pub fn select(&mut self, index: usize) -> (r: Result<(), SelectError>)
        ensures
            final(self)@ == old(self)@.select(index as int),
            r is Ok <==> old(self)@.accepts(index as int),
            r is Err ==> r == Err::<(), SelectError>(
                (SelectError::IndexOutOfRange { index, len: old(self)@.labels.len() as usize }),
            ),
    {
        self.refresh_button(index)
    }

    /// The position of the selected button, or `None` when none is selected.
    pub fn current(&self) -> (r: Option<usize>)
        ensures
            r is None <==> self@.selected is None,
            r matches Some(i) ==> self@.selected == Some(i as int) && i < self@.labels.len(),
    {
        proof {
            use_type_invariant(self);
        }
        self.selected
    }

    /// The label of the selected button, or `None` when none is selected.
    pub fn current_label(&self) -> (r: Option<&str>)
        ensures
            r is None <==> self@.selected is None,
            r matches Some(s) ==> s@ == self@.labels[self@.selected->0],
    {
        proof {
            use_type_invariant(self);
        }
        match self.selected {
            Some(i) => Some(self.button_names[i].as_str()),
            None => None,
        }
    }

    /// Whether button `j` is the selected one.
    pub fn is_selected(&self, j: usize) -> (r: bool)
        ensures
            r == self@.is_selected(j as int),
    {
        match self.selected {
            Some(i) => i == j,
            None => false,
        }
    }

    /// The number of buttons.
    pub fn len(&self) -> (r: usize)
        ensures
            r == self@.labels.len(),
    {
        self.button_names.len()
    }

    /// The label of button `i`, or `None` when there is no such button.
    pub fn label(&self, i: usize) -> (r: Option<&str>)
        ensures
            r is None <==> i >= self@.labels.len(),
            r matches Some(s) ==> s@ == self@.labels[i as int],
    {
        if i < self.button_names.len() {
            Some(self.button_names[i].as_str())
        } else {
            None
        }
    }

    /// The sidebar's title.
    pub fn title(&self) -> (r: &str)
        ensures
            r@ == self@.title,
    {
        self.title.as_str()
    }
}

impl Default for SideBar {
    /// An untitled sidebar without buttons.
    fn default() -> (r: SideBar)
        ensures
            r@ == SideBarModel::unselected(Seq::empty(), Seq::empty()),
    {
        let r = SideBar::new(String::new(), Vec::new());
        assert(labels_of(Seq::<String>::empty()) =~= Seq::empty());
        r
    }
}

/// After a sidebar is made from `labels` and button `i` is selected, `i` is the
/// current selection and every other button reports that it is not selected.
pub proof fn lemma_select_then_current(title: Seq<char>, labels: Seq<Seq<char>>, i: int)
    requires
        0 <= i < labels.len(),
    ensures
        SideBarModel::unselected(title, labels).accepts(i),
        SideBarModel::unselected(title, labels).select(i).selected == Some(i),
        forall|j: int|
            0 <= j < labels.len() && j != i ==> !(#[trigger] SideBarModel::unselected(
                title,
                labels,
            ).select(i).is_selected(j)),
{
}

/// Selecting the same button twice leaves the sidebar as selecting it once, and
/// the second selection succeeds exactly when the first did.
pub proof fn lemma_select_idempotent(m: SideBarModel, i: int)
    ensures
        m.select(i).select(i) == m.select(i),
        m.select(i).accepts(i) == m.accepts(i),
{
}

/// A selection past the last button is refused and leaves the sidebar as it was.
pub proof fn lemma_select_out_of_range(m: SideBarModel, i: int)
    requires
        i >= m.labels.len(),
    ensures
        !m.accepts(i),
        m.select(i) == m,
{
}

/// A sidebar without buttons has no selection, and refuses every selection.
pub proof fn lemma_empty_sidebar(title: Seq<char>, i: int)
    ensures
        SideBarModel::unselected(title, Seq::empty()).selected is None,
        !SideBarModel::unselected(title, Seq::empty()).accepts(i),
        SideBarModel::unselected(title, Seq::empty()).select(i) == SideBarModel::unselected(
            title,
            Seq::empty(),
        ),
{
}

/// Every selection keeps a well-formed sidebar well formed.
pub proof fn lemma_select_well_formed(m: SideBarModel, i: int)
    requires
        m.well_formed(),
    ensures
        m.select(i).well_formed(),
{
}

} // verus!
