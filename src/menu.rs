use vstd::prelude::*;

verus! {

/// The abstract value of a menu: its title and the titles of its items, in order.
pub struct MenuView {
    pub title: Seq<char>,
    pub items: Seq<Seq<char>>,
}

impl MenuView {
    /// A menu with the given title and no items.
    pub open spec fn empty(title: Seq<char>) -> MenuView {
        MenuView { title, items: Seq::empty() }
    }

    /// This menu with one more item at the end.
    pub open spec fn push(self, item: Seq<char>) -> MenuView {
        MenuView { title: self.title, items: self.items.push(item) }
    }
}

/// One entry of a menu.
pub struct MenuItem {
    pub title: String,
}

impl MenuItem {
    pub open spec fn view(&self) -> Seq<char> {
        self.title@
    }

    /// An item with the given title.
    pub fn new(title: &str) -> (r: MenuItem)
        ensures
            r@ == title@,
    {
        MenuItem { title: title.to_string() }
    }
}

/// A menu: a title and an ordered list of items.
pub struct Menu {
    title: String,
    items: Vec<MenuItem>,
}

impl View for Menu {
    type V = MenuView;

    closed spec fn view(&self) -> MenuView {
        MenuView { title: self.title@, items: self.items@.map_values(|i: MenuItem| i@) }
    }
}

impl Menu {
    /// A menu without a title and without items.
    pub fn new() -> (r: Menu)
        ensures
            r@ == MenuView::empty(Seq::empty()),
    {
        let r = Menu { title: String::new(), items: Vec::new() };
        assert(r@.items =~= Seq::<Seq<char>>::empty());
        r
    }

    /// A menu with the given title and without items.
    pub fn new_with_title(title: &str) -> (r: Menu)
        ensures
            r@ == MenuView::empty(title@),
    {
        let r = Menu { title: title.to_string(), items: Vec::new() };
        assert(r@.items =~= Seq::<Seq<char>>::empty());
        r
    }

    pub fn title(&self) -> (r: &str)
        ensures
            r@ == self@.title,
    {
        self.title.as_str()
    }

    pub fn len(&self) -> (r: usize)
        ensures
            r == self@.items.len(),
    {
        self.items.len()
    }

    /// The title of the item at `index`.
    pub fn item_title(&self, index: usize) -> (r: &str)
        requires
            index < self@.items.len(),
        ensures
            r@ == self@.items[index as int],
    {
        self.items[index].title.as_str()
    }

    /// Appends `item` after the existing items.
    pub fn add(&mut self, item: MenuItem)
        ensures
            final(self)@ == old(self)@.push(item@),
    {
        self.items.push(item);
        assert(self@.items =~= old(self)@.items.push(item@));
    }

    /// A separate menu with the same title and items.
    pub fn duplicate(&self) -> (r: Menu)
        ensures
            r@ == self@,
    {
        let mut items: Vec<MenuItem> = Vec::new();
        let n = self.items.len();
        let mut i: usize = 0;
        while i < n
            invariant
                n == self.items@.len(),
                i <= n,
                items@.len() == i,
                forall|j: int| 0 <= j < i ==> #[trigger] items@[j]@ == self.items@[j]@,
            decreases n - i,
        {
            let t = self.items[i].title.clone();
            items.push(MenuItem { title: t });
            i = i + 1;
        }
        let r = Menu { title: self.title.clone(), items };
        assert(r@.items =~= self@.items);
        r
    }
}

} // verus!
