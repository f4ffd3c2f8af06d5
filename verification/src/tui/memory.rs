//! The shared-memory browser: the list of pages, the page being read and
//! which panel has the keyboard. Reading a page through the `ai-memory` CLI
//! belongs to the program around this library.

use vstd::prelude::*;

use crate::kernel::text::{is_blank, push_str, spec_starts_with, spec_trim, str_starts_with};

verus! {

broadcast use vstd::string::group_string_axioms;

/// Which panel has the keyboard.
#[derive(Debug, Clone, Copy, PartialEq, Eq, Structural)]
pub enum MemoryFocus {
    List,
    Content,
}

/// What the reading panel shows before a page is opened.
pub const PREVIEW_HINT: &'static str = "Selecione uma página e pressione Enter para ler.\n\nUse Tab para alternar o foco para este painel e navegar com ↑↓.";

/// The browser: the pages (path and title), the cursor, the text read and
/// how far it is scrolled, and the focus.
#[derive(Debug, Clone)]
pub struct MemoryViewState {
    pub pages: Vec<(String, String)>,
    pub selected: Option<usize>,
    pub preview: String,
    pub preview_scroll: u16,
    pub page_count: usize,
    pub focus: MemoryFocus,
}

/// The page the cursor is on (the first when none is marked).
pub open spec fn spec_memory_selected(s: MemoryViewState) -> nat {
    match s.selected {
        Some(i) => i as nat,
        None => 0,
    }
}

impl MemoryViewState {
    /// A browser over `pages`, on the first page, with the list focused.
    pub fn new(pages: Vec<(String, String)>) -> (r: MemoryViewState)
        ensures
            r.pages == pages,
            r.selected == (if pages@.len() > 0 { Some(0usize) } else { None }),
            r.preview@ == PREVIEW_HINT@,
            r.preview_scroll == 0,
            r.page_count == pages@.len(),
            r.focus == MemoryFocus::List,
    {
        let count = pages.len();
        let selected = if count > 0 { Some(0) } else { None };
        MemoryViewState {
            pages,
            selected,
            preview: String::from_str(PREVIEW_HINT),
            preview_scroll: 0,
            page_count: count,
            focus: MemoryFocus::List,
        }
    }

    /// Gives the keyboard to the other panel.
    pub fn toggle_focus(&mut self)
        ensures
            final(self).focus == (if old(self).focus == MemoryFocus::List {
                MemoryFocus::Content
            } else {
                MemoryFocus::List
            }),
            final(self).pages == old(self).pages,
            final(self).selected == old(self).selected,
            final(self).preview == old(self).preview,
            final(self).preview_scroll == old(self).preview_scroll,
    {
        self.focus = match self.focus {
            MemoryFocus::List => MemoryFocus::Content,
            MemoryFocus::Content => MemoryFocus::List,
        };
    }

    /// The page the cursor is on.
    pub fn selected(&self) -> (r: usize)
        ensures
            r == spec_memory_selected(*self),
    {
        match self.selected {
            Some(i) => i,
            None => 0,
        }
    }

    /// Moves the cursor up, staying on the first page.
    pub fn move_up(&mut self)
        ensures
            spec_memory_selected(*old(self)) > 0 ==> final(self).selected == Some(
                (spec_memory_selected(*old(self)) - 1) as usize,
            ),
            spec_memory_selected(*old(self)) == 0 ==> final(self).selected == old(self).selected,
            final(self).pages == old(self).pages,
            final(self).focus == old(self).focus,
            final(self).preview == old(self).preview,
            final(self).preview_scroll == old(self).preview_scroll,
    {
        let i = self.selected();
        if i > 0 {
            self.selected = Some(i - 1);
        }
    }

    /// Moves the cursor down, staying on the last page.
    pub fn move_down(&mut self)
        ensures
            spec_memory_selected(*old(self)) + 1 < old(self).pages@.len() ==> final(self).selected == Some(
                (spec_memory_selected(*old(self)) + 1) as usize,
            ),
            spec_memory_selected(*old(self)) + 1 >= old(self).pages@.len() ==> final(self).selected == old(
                self,
            ).selected,
            final(self).pages == old(self).pages,
            final(self).focus == old(self).focus,
            final(self).preview == old(self).preview,
            final(self).preview_scroll == old(self).preview_scroll,
    {
        let i = self.selected();
        if i < self.pages.len() && i + 1 < self.pages.len() {
            self.selected = Some(i + 1);
        }
    }

    /// Scrolls the page back three lines, no further than its start.
    pub fn scroll_up(&mut self)
        ensures
            final(self).preview_scroll == (if old(self).preview_scroll >= 3 {
                (old(self).preview_scroll - 3) as u16
            } else {
                0u16
            }),
            final(self).pages == old(self).pages,
            final(self).selected == old(self).selected,
            final(self).focus == old(self).focus,
            final(self).preview == old(self).preview,
    {
        self.preview_scroll = self.preview_scroll.saturating_sub(3);
    }

    /// Scrolls the page forward three lines.
    pub fn scroll_down(&mut self)
        ensures
            final(self).preview_scroll == (if old(self).preview_scroll <= 65532 {
                (old(self).preview_scroll + 3) as u16
            } else {
                65535u16
            }),
            final(self).pages == old(self).pages,
            final(self).selected == old(self).selected,
            final(self).focus == old(self).focus,
            final(self).preview == old(self).preview,
    {
        self.preview_scroll = self.preview_scroll.saturating_add(3);
    }

    /// Goes back to the page's start.
    pub fn scroll_top(&mut self)
        ensures
            final(self).preview_scroll == 0,
            final(self).pages == old(self).pages,
            final(self).selected == old(self).selected,
            final(self).focus == old(self).focus,
            final(self).preview == old(self).preview,
    {
        self.preview_scroll = 0;
    }

    /// The path of the page the cursor is on, if there is one.
    pub fn selected_path(&self) -> (r: Option<&str>)
        ensures
            spec_memory_selected(*self) < self.pages@.len() ==> (r matches Some(p) && p@
                == self.pages@[spec_memory_selected(*self) as int].0@),
            spec_memory_selected(*self) >= self.pages@.len() ==> r is None,
    {
        let i = self.selected();
        if i < self.pages.len() {
            Some(self.pages[i].0.as_str())
        } else {
            None
        }
    }

    /// Shows what reading the selected page gave: its text (a note when it
    /// is blank), with the reading panel focused at the top; `None` when the
    /// page could not be read, which the panel reports with the page's path.
    /// Nothing happens when the cursor is on no page.
    pub fn show_page(&mut self, text: Option<String>)
        ensures
            spec_memory_selected(*old(self)) >= old(self).pages@.len() ==> *final(self) == *old(self),
            spec_memory_selected(*old(self)) < old(self).pages@.len() ==> match text {
                Some(t) => {
                    &&& final(self).preview@ == (if spec_trim(t@).len() == 0 {
                        "(página vazia)"@
                    } else {
                        t@
                    })
                    &&& final(self).preview_scroll == 0
                    &&& final(self).focus == MemoryFocus::Content
                },
                None => {
                    &&& final(self).preview@ == "Erro ao carregar: "@ + old(self).pages@[spec_memory_selected(
                        *old(self),
                    ) as int].0@
                    &&& final(self).preview_scroll == old(self).preview_scroll
                    &&& final(self).focus == old(self).focus
                },
            },
            final(self).pages == old(self).pages,
            final(self).selected == old(self).selected,
    {
        let i = self.selected();
        if i >= self.pages.len() {
            return;
        }
        match text {
            Some(t) => {
                self.preview = if is_blank(t.as_str()) {
                    String::from_str("(página vazia)")
                } else {
                    t
                };
                self.preview_scroll = 0;
                self.focus = MemoryFocus::Content;
            },
            None => {
                let mut msg = String::from_str("Erro ao carregar: ");
                push_str(&mut msg, self.pages[i].0.as_str());
                self.preview = msg;
            },
        }
    }
}

/// How a page's path is shown: without its section folder.
pub open spec fn spec_short_path(path: Seq<char>) -> Seq<char> {
    if spec_starts_with(path, "notes/"@) {
        path.skip(6)
    } else if spec_starts_with(path, "sessions/"@) {
        path.skip(9)
    } else if spec_starts_with(path, "decisions/"@) {
        path.skip(10)
    } else if spec_starts_with(path, "handoffs/"@) {
        path.skip(9)
    } else {
        path
    }
}

/// The path as the list shows it.
pub fn short_path(path: &str) -> (r: String)
    ensures
        r@ == spec_short_path(path@),
{
    proof {
        reveal_strlit("notes/");
        reveal_strlit("sessions/");
        reveal_strlit("decisions/");
        reveal_strlit("handoffs/");
    }
    let n = path.unicode_len();
    let skip: usize = if str_starts_with(path, "notes/") {
        6
    } else if str_starts_with(path, "sessions/") {
        9
    } else if str_starts_with(path, "decisions/") {
        10
    } else if str_starts_with(path, "handoffs/") {
        9
    } else {
        0
    };
    let r = path.substring_char(skip, n);
    let mut s = String::new();
    push_str(&mut s, r);
    assert(path@.skip(0) =~= path@);
    s
}

/// The footer of the browser, by focus.
pub fn footer_hint(focus: MemoryFocus) -> (r: &'static str)
    ensures
        r@ == (if focus == MemoryFocus::List {
            " [Lista]  ↑↓/jk: navegar   Enter: ler   Tab: foco→conteúdo   s: sync   r: refresh   q: voltar"@
        } else {
            " [Conteúdo]  ↑↓/jk: scroll   Tab: foco→lista   q: voltar"@
        }),
{
    match focus {
        MemoryFocus::List => " [Lista]  ↑↓/jk: navegar   Enter: ler   Tab: foco→conteúdo   s: sync   r: refresh   q: voltar",
        MemoryFocus::Content => " [Conteúdo]  ↑↓/jk: scroll   Tab: foco→lista   q: voltar",
    }
}

} // verus!
