//! The images of a window, and which of them is shown.

use vstd::prelude::*;
use crate::paths::texts;
use crate::text::decimal;
use crate::text::push_decimal;

verus! {

/// The image paths of a window and the position of the selected one.
///
/// The position may stand just behind the last path: that is where it is when
/// there are no paths, and after files were to be opened but none was chosen.
/// No image is shown then.
#[derive(Debug)]
pub struct ImageList {
    paths: Vec<String>,
    selected: usize,
    show_info: bool,
}

impl ImageList {
    /// The paths, in their order.
    pub closed spec fn paths(&self) -> Seq<Seq<char>> {
        texts(self.paths@)
    }

    /// The position of the selected path.
    pub closed spec fn selected(&self) -> int {
        self.selected as int
    }

    /// Whether the overlay that describes the image is shown.
    pub closed spec fn shows_info(&self) -> bool {
        self.show_info
    }

    /// The position is that of a path, or just behind the last one.
    #[verifier::type_invariant]
    spec fn in_range(&self) -> bool {
        self.selected <= self.paths@.len()
    }

    /// The list of a new window: the first path is selected, and the overlay
    /// is shown.
    pub fn new(paths: Vec<String>) -> (list: ImageList)
        ensures
            list.paths() == texts(paths@),
            list.selected() == 0,
            list.shows_info(),
    {
        ImageList { paths, selected: 0, show_info: true }
    }

    /// The number of paths.
    pub fn len(&self) -> (n: usize)
        ensures
            n == self.paths().len(),
    {
        self.paths.len()
    }

    /// The position of the selected path.
    pub fn selected_index(&self) -> (i: usize)
        ensures
            i == self.selected(),
    {
        self.selected
    }

    /// Whether the overlay that describes the image is shown.
    pub fn show_image_info(&self) -> (shown: bool)
        ensures
            shown == self.shows_info(),
    {
        self.show_info
    }

    /// The selected path, if the position is that of a path.
    pub fn selected_image(&self) -> (path: Option<String>)
        ensures
            match path {
                Some(p) => self.selected() < self.paths().len() && p@ == self.paths()[self.selected()],
                None => self.selected() >= self.paths().len(),
            },
    {
        if self.selected < self.paths.len() {
            Some(self.paths[self.selected].clone())
        } else {
            None
        }
    }

    /// The selected position counted from one, and the number of paths, as the
    /// window shows them; nothing where no image is selected.
    pub fn position(&self) -> (shown: Option<(usize, usize)>)
        ensures
            match shown {
                Some((at, of)) => self.selected() < self.paths().len() && at == self.selected()
                    + 1 && of == self.paths().len(),
                None => self.selected() >= self.paths().len(),
            },
    {
        if self.selected < self.paths.len() {
            Some((self.selected + 1, self.paths.len()))
        } else {
            None
        }
    }

    /// The position as the window shows it: the selected position counted
    /// from one, `/`, and the number of paths; nothing where no image is
    /// selected.
    pub fn position_text(&self) -> (shown: Option<String>)
        ensures
            match shown {
                Some(text) => self.selected() < self.paths().len() && text@ == decimal(
                    (self.selected() + 1) as nat,
                ) + seq!['/'] + decimal(self.paths().len()),
                None => self.selected() >= self.paths().len(),
            },
    {
        match self.position() {
            Some((at, of)) => {
                let mut out = String::new();
                push_decimal(&mut out, at);
                out.push('/');
                push_decimal(&mut out, of);
                assert(out@ =~= decimal(at as nat) + seq!['/'] + decimal(of as nat));
                Some(out)
            },
            None => None,
        }
    }

    /// Selects the path before the selected one, if there is one. Returns
    /// whether the selection moved.
    pub fn prev_image(&mut self) -> (moved: bool)
        ensures
            final(self).selected() <= final(self).paths().len(),
            final(self).paths() == old(self).paths(),
            final(self).shows_info() == old(self).shows_info(),
            moved == (old(self).selected() > 0),
            final(self).selected() == if moved {
                old(self).selected() - 1
            } else {
                old(self).selected()
            },
    {
        proof {
            use_type_invariant(&*self);
        }
        if self.selected == 0 {
            return false;
        }
        self.selected -= 1;
        true
    }

    /// Selects the path after the selected one, if there is one. Returns
    /// whether the selection moved.
    pub fn next_image(&mut self) -> (moved: bool)
        ensures
            final(self).selected() <= final(self).paths().len(),
            final(self).paths() == old(self).paths(),
            final(self).shows_info() == old(self).shows_info(),
            moved == (old(self).selected() + 1 < old(self).paths().len()),
            final(self).selected() == if moved {
                old(self).selected() + 1
            } else {
                old(self).selected()
            },
    {
        proof {
            use_type_invariant(&*self);
        }
        let n: usize = self.paths.len();
        if n == 0 || self.selected >= n - 1 {
            return false;
        }
        self.selected += 1;
        true
    }

    /// Selects the first path, if there is any path. Returns whether there is.
    pub fn first_image(&mut self) -> (moved: bool)
        ensures
            final(self).selected() <= final(self).paths().len(),
            final(self).paths() == old(self).paths(),
            final(self).shows_info() == old(self).shows_info(),
            moved == (old(self).paths().len() > 0),
            final(self).selected() == if moved {
                0
            } else {
                old(self).selected()
            },
    {
        proof {
            use_type_invariant(&*self);
        }
        if self.paths.len() == 0 {
            return false;
        }
        self.selected = 0;
        true
    }

    /// Selects the last path, if there is any path. Returns whether there is.
    pub fn last_image(&mut self) -> (moved: bool)
        ensures
            final(self).selected() <= final(self).paths().len(),
            final(self).paths() == old(self).paths(),
            final(self).shows_info() == old(self).shows_info(),
            moved == (old(self).paths().len() > 0),
            final(self).selected() == if moved {
                old(self).paths().len() - 1
            } else {
                old(self).selected()
            },
    {
        proof {
            use_type_invariant(&*self);
        }
        if self.paths.len() == 0 {
            return false;
        }
        self.selected = self.paths.len() - 1;
        true
    }

    /// Appends the paths the user chose and selects the first of them. Where
    /// none was chosen the position is just behind the last path.
    pub fn open_files(&mut self, chosen: Vec<String>)
        ensures
            final(self).selected() <= final(self).paths().len(),
            final(self).paths() == old(self).paths() + texts(chosen@),
            final(self).shows_info() == old(self).shows_info(),
            final(self).selected() == old(self).paths().len(),
    {
        proof {
            use_type_invariant(&*self);
        }
        let mut chosen = chosen;
        let ghost added = chosen@;
        let previous: usize = self.paths.len();
        let mut paths: Vec<String> = Vec::new();
        self.selected = 0;
        core::mem::swap(&mut self.paths, &mut paths);
        paths.append(&mut chosen);
        core::mem::swap(&mut self.paths, &mut paths);
        self.selected = previous;
        assert(texts(self.paths@) =~= texts(old(self).paths@) + texts(added));
    }

    /// Shows the overlay that describes the image if it is hidden, and hides
    /// it if it is shown.
    pub fn toggle_image_info(&mut self)
        ensures
            final(self).paths() == old(self).paths(),
            final(self).selected() == old(self).selected(),
            final(self).shows_info() == !old(self).shows_info(),
    {
        proof {
            use_type_invariant(&*self);
        }
        self.show_info = !self.show_info;
    }
}

} // verus!
