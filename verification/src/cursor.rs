use vstd::prelude::*;

verus! {

/// The mouse cursor shapes that the user interface asks for (named as egui
/// names them).
#[derive(Clone, Copy, Debug, PartialEq, Eq, Structural)]
pub enum CursorIcon {
    Default,
    /// No cursor is shown (egui names this shape `None`).
    Hidden,
    ContextMenu,
    Help,
    PointingHand,
    Progress,
    Wait,
    Cell,
    Crosshair,
    Text,
    VerticalText,
    Alias,
    Copy,
    Move,
    NoDrop,
    NotAllowed,
    Grab,
    Grabbing,
    AllScroll,
    ResizeHorizontal,
    ResizeNeSw,
    ResizeNwSe,
    ResizeVertical,
    ResizeEast,
    ResizeSouthEast,
    ResizeSouth,
    ResizeSouthWest,
    ResizeWest,
    ResizeNorthWest,
    ResizeNorth,
    ResizeNorthEast,
    ResizeColumn,
    ResizeRow,
    ZoomIn,
    ZoomOut,
}

/// The name of the X11 cursor theme entry that shows a cursor shape.
pub open spec fn x11_cursor_name(icon: CursorIcon) -> Seq<char> {
    match icon {
        CursorIcon::Default => "left_ptr"@,
        CursorIcon::Hidden => "none"@,
        CursorIcon::ContextMenu => "context-menu"@,
        CursorIcon::Help => "help"@,
        CursorIcon::PointingHand => "pointer"@,
        CursorIcon::Progress => "progress"@,
        CursorIcon::Wait => "wait"@,
        CursorIcon::Cell => "cell"@,
        CursorIcon::Crosshair => "crosshair"@,
        CursorIcon::Text => "text"@,
        CursorIcon::VerticalText => "vertical-text"@,
        CursorIcon::Alias => "alias"@,
        CursorIcon::Copy => "copy"@,
        CursorIcon::Move => "move"@,
        CursorIcon::NoDrop => "no-drop"@,
        CursorIcon::NotAllowed => "not-allowed"@,
        CursorIcon::Grab => "grab"@,
        CursorIcon::Grabbing => "grabbing"@,
        CursorIcon::AllScroll => "all-scroll"@,
        CursorIcon::ResizeHorizontal => "resize-horiz"@,
        CursorIcon::ResizeNeSw => "nesw-resize"@,
        CursorIcon::ResizeNwSe => "nwse-resize"@,
        CursorIcon::ResizeVertical => "vertical-resize"@,
        CursorIcon::ResizeEast => "e-resize"@,
        CursorIcon::ResizeSouthEast => "se-resize"@,
        CursorIcon::ResizeSouth => "s-resize"@,
        CursorIcon::ResizeSouthWest => "sw-resize"@,
        CursorIcon::ResizeWest => "w-resize"@,
        CursorIcon::ResizeNorthWest => "nw-resize"@,
        CursorIcon::ResizeNorth => "n-resize"@,
        CursorIcon::ResizeNorthEast => "ne-resize"@,
        CursorIcon::ResizeColumn => "col-resize"@,
        CursorIcon::ResizeRow => "row-resize"@,
        CursorIcon::ZoomIn => "zoom-in"@,
        CursorIcon::ZoomOut => "zoom-out"@,
    }
}

/// The name of the X11 cursor theme entry for a cursor shape; the names were
/// checked against the cursor themes under `/usr/share/icons/<theme>/cursors`.
pub fn to_x11_cursor(cursor_icon: CursorIcon) -> (name: &'static str)
    ensures
        name@ == x11_cursor_name(cursor_icon),
{
    match cursor_icon {
        CursorIcon::Default => "left_ptr",  // Default arrow cursor
        CursorIcon::Hidden => "none",  // Hidden cursor
        CursorIcon::ContextMenu => "context-menu",
        CursorIcon::Help => "help",
        CursorIcon::PointingHand => "pointer",
        CursorIcon::Progress => "progress",
        CursorIcon::Wait => "wait",
        CursorIcon::Cell => "cell",
        CursorIcon::Crosshair => "crosshair",
        CursorIcon::Text => "text",
        CursorIcon::VerticalText => "vertical-text",
        CursorIcon::Alias => "alias",
        CursorIcon::Copy => "copy",
        CursorIcon::Move => "move",
        CursorIcon::NoDrop => "no-drop",
        CursorIcon::NotAllowed => "not-allowed",
        CursorIcon::Grab => "grab",
        CursorIcon::Grabbing => "grabbing",
        CursorIcon::AllScroll => "all-scroll",
        CursorIcon::ResizeHorizontal => "resize-horiz",
        CursorIcon::ResizeNeSw => "nesw-resize",
        CursorIcon::ResizeNwSe => "nwse-resize",
        CursorIcon::ResizeVertical => "vertical-resize",
        CursorIcon::ResizeEast => "e-resize",
        CursorIcon::ResizeSouthEast => "se-resize",
        CursorIcon::ResizeSouth => "s-resize",
        CursorIcon::ResizeSouthWest => "sw-resize",
        CursorIcon::ResizeWest => "w-resize",
        CursorIcon::ResizeNorthWest => "nw-resize",
        CursorIcon::ResizeNorth => "n-resize",
        CursorIcon::ResizeNorthEast => "ne-resize",
        CursorIcon::ResizeColumn => "col-resize",
        CursorIcon::ResizeRow => "row-resize",
        CursorIcon::ZoomIn => "zoom-in",
        CursorIcon::ZoomOut => "zoom-out",
    }
}

/// The shape whose X11 cursor name is `s`, if any.
pub open spec fn cursor_for_name(s: Seq<char>) -> Option<CursorIcon> {
    if s.len() == 4 {
        if s[0] == 'c' {
            if s[1] == 'e' {
                if s == x11_cursor_name(CursorIcon::Cell) {
                    Some(CursorIcon::Cell)
                } else {
                    None
                }
            } else if s[1] == 'o' {
                if s == x11_cursor_name(CursorIcon::Copy) {
                    Some(CursorIcon::Copy)
                } else {
                    None
                }
            } else {
                None
            }
        } else if s[0] == 'g' {
            if s == x11_cursor_name(CursorIcon::Grab) {
                Some(CursorIcon::Grab)
            } else {
                None
            }
        } else if s[0] == 'h' {
            if s == x11_cursor_name(CursorIcon::Help) {
                Some(CursorIcon::Help)
            } else {
                None
            }
        } else if s[0] == 'm' {
            if s == x11_cursor_name(CursorIcon::Move) {
                Some(CursorIcon::Move)
            } else {
                None
            }
        } else if s[0] == 'n' {
            if s == x11_cursor_name(CursorIcon::Hidden) {
                Some(CursorIcon::Hidden)
            } else {
                None
            }
        } else if s[0] == 't' {
            if s == x11_cursor_name(CursorIcon::Text) {
                Some(CursorIcon::Text)
            } else {
                None
            }
        } else if s[0] == 'w' {
            if s == x11_cursor_name(CursorIcon::Wait) {
                Some(CursorIcon::Wait)
            } else {
                None
            }
        } else {
            None
        }
    } else if s.len() == 5 {
        if s == x11_cursor_name(CursorIcon::Alias) {
            Some(CursorIcon::Alias)
        } else {
            None
        }
    } else if s.len() == 7 {
        if s[0] == 'n' {
            if s == x11_cursor_name(CursorIcon::NoDrop) {
                Some(CursorIcon::NoDrop)
            } else {
                None
            }
        } else if s[0] == 'p' {
            if s == x11_cursor_name(CursorIcon::PointingHand) {
                Some(CursorIcon::PointingHand)
            } else {
                None
            }
        } else if s[0] == 'z' {
            if s == x11_cursor_name(CursorIcon::ZoomIn) {
                Some(CursorIcon::ZoomIn)
            } else {
                None
            }
        } else {
            None
        }
    } else if s.len() == 8 {
        if s[0] == 'e' {
            if s == x11_cursor_name(CursorIcon::ResizeEast) {
                Some(CursorIcon::ResizeEast)
            } else {
                None
            }
        } else if s[0] == 'g' {
            if s == x11_cursor_name(CursorIcon::Grabbing) {
                Some(CursorIcon::Grabbing)
            } else {
                None
            }
        } else if s[0] == 'l' {
            if s == x11_cursor_name(CursorIcon::Default) {
                Some(CursorIcon::Default)
            } else {
                None
            }
        } else if s[0] == 'n' {
            if s == x11_cursor_name(CursorIcon::ResizeNorth) {
                Some(CursorIcon::ResizeNorth)
            } else {
                None
            }
        } else if s[0] == 'p' {
            if s == x11_cursor_name(CursorIcon::Progress) {
                Some(CursorIcon::Progress)
            } else {
                None
            }
        } else if s[0] == 's' {
            if s == x11_cursor_name(CursorIcon::ResizeSouth) {
                Some(CursorIcon::ResizeSouth)
            } else {
                None
            }
        } else if s[0] == 'w' {
            if s == x11_cursor_name(CursorIcon::ResizeWest) {
                Some(CursorIcon::ResizeWest)
            } else {
                None
            }
        } else if s[0] == 'z' {
            if s == x11_cursor_name(CursorIcon::ZoomOut) {
                Some(CursorIcon::ZoomOut)
            } else {
                None
            }
        } else {
            None
        }
    } else if s.len() == 9 {
        if s[0] == 'c' {
            if s == x11_cursor_name(CursorIcon::Crosshair) {
                Some(CursorIcon::Crosshair)
            } else {
                None
            }
        } else if s[0] == 'n' {
            if s[1] == 'e' {
                if s == x11_cursor_name(CursorIcon::ResizeNorthEast) {
                    Some(CursorIcon::ResizeNorthEast)
                } else {
                    None
                }
            } else if s[1] == 'w' {
                if s == x11_cursor_name(CursorIcon::ResizeNorthWest) {
                    Some(CursorIcon::ResizeNorthWest)
                } else {
                    None
                }
            } else {
                None
            }
        } else if s[0] == 's' {
            if s[1] == 'e' {
                if s == x11_cursor_name(CursorIcon::ResizeSouthEast) {
                    Some(CursorIcon::ResizeSouthEast)
                } else {
                    None
                }
            } else if s[1] == 'w' {
                if s == x11_cursor_name(CursorIcon::ResizeSouthWest) {
                    Some(CursorIcon::ResizeSouthWest)
                } else {
                    None
                }
            } else {
                None
            }
        } else {
            None
        }
    } else if s.len() == 10 {
        if s[0] == 'a' {
            if s == x11_cursor_name(CursorIcon::AllScroll) {
                Some(CursorIcon::AllScroll)
            } else {
                None
            }
        } else if s[0] == 'c' {
            if s == x11_cursor_name(CursorIcon::ResizeColumn) {
                Some(CursorIcon::ResizeColumn)
            } else {
                None
            }
        } else if s[0] == 'r' {
            if s == x11_cursor_name(CursorIcon::ResizeRow) {
                Some(CursorIcon::ResizeRow)
            } else {
                None
            }
        } else {
            None
        }
    } else if s.len() == 11 {
        if s[1] == 'e' {
            if s == x11_cursor_name(CursorIcon::ResizeNeSw) {
                Some(CursorIcon::ResizeNeSw)
            } else {
                None
            }
        } else if s[1] == 'o' {
            if s == x11_cursor_name(CursorIcon::NotAllowed) {
                Some(CursorIcon::NotAllowed)
            } else {
                None
            }
        } else if s[1] == 'w' {
            if s == x11_cursor_name(CursorIcon::ResizeNwSe) {
                Some(CursorIcon::ResizeNwSe)
            } else {
                None
            }
        } else {
            None
        }
    } else if s.len() == 12 {
        if s[0] == 'c' {
            if s == x11_cursor_name(CursorIcon::ContextMenu) {
                Some(CursorIcon::ContextMenu)
            } else {
                None
            }
        } else if s[0] == 'r' {
            if s == x11_cursor_name(CursorIcon::ResizeHorizontal) {
                Some(CursorIcon::ResizeHorizontal)
            } else {
                None
            }
        } else {
            None
        }
    } else if s.len() == 13 {
        if s == x11_cursor_name(CursorIcon::VerticalText) {
            Some(CursorIcon::VerticalText)
        } else {
            None
        }
    } else if s.len() == 15 {
        if s == x11_cursor_name(CursorIcon::ResizeVertical) {
            Some(CursorIcon::ResizeVertical)
        } else {
            None
        }
    } else {
        None
    }
}

/// Each cursor shape has its own X11 cursor name, and each name is a
/// non-empty ASCII word without spaces.
pub proof fn lemma_cursor_names_distinct()
    ensures
        forall|icon: CursorIcon| cursor_for_name(#[trigger] x11_cursor_name(icon)) == Some(icon),
        forall|a: CursorIcon, b: CursorIcon|
            x11_cursor_name(a) == x11_cursor_name(b) ==> a == b,
        forall|icon: CursorIcon|
            #![trigger x11_cursor_name(icon)]
            x11_cursor_name(icon).len() > 0 && forall|i: int|
                0 <= i < x11_cursor_name(icon).len() ==> {
                    let c = #[trigger] x11_cursor_name(icon)[i];
                    c != ' ' && (c as u32) < 128
                },
{
    reveal_strlit("left_ptr");
    reveal_strlit("none");
    reveal_strlit("context-menu");
    reveal_strlit("help");
    reveal_strlit("pointer");
    reveal_strlit("progress");
    reveal_strlit("wait");
    reveal_strlit("cell");
    reveal_strlit("crosshair");
    reveal_strlit("text");
    reveal_strlit("vertical-text");
    reveal_strlit("alias");
    reveal_strlit("copy");
    reveal_strlit("move");
    reveal_strlit("no-drop");
    reveal_strlit("not-allowed");
    reveal_strlit("grab");
    reveal_strlit("grabbing");
    reveal_strlit("all-scroll");
    reveal_strlit("resize-horiz");
    reveal_strlit("nesw-resize");
    reveal_strlit("nwse-resize");
    reveal_strlit("vertical-resize");
    reveal_strlit("e-resize");
    reveal_strlit("se-resize");
    reveal_strlit("s-resize");
    reveal_strlit("sw-resize");
    reveal_strlit("w-resize");
    reveal_strlit("nw-resize");
    reveal_strlit("n-resize");
    reveal_strlit("ne-resize");
    reveal_strlit("col-resize");
    reveal_strlit("row-resize");
    reveal_strlit("zoom-in");
    reveal_strlit("zoom-out");
    assert forall|icon: CursorIcon| cursor_for_name(#[trigger] x11_cursor_name(icon)) == Some(icon) by {
        match icon {
            CursorIcon::Default => {},
            CursorIcon::Hidden => {},
            CursorIcon::ContextMenu => {},
            CursorIcon::Help => {},
            CursorIcon::PointingHand => {},
            CursorIcon::Progress => {},
            CursorIcon::Wait => {},
            CursorIcon::Cell => {},
            CursorIcon::Crosshair => {},
            CursorIcon::Text => {},
            CursorIcon::VerticalText => {},
            CursorIcon::Alias => {},
            CursorIcon::Copy => {},
            CursorIcon::Move => {},
            CursorIcon::NoDrop => {},
            CursorIcon::NotAllowed => {},
            CursorIcon::Grab => {},
            CursorIcon::Grabbing => {},
            CursorIcon::AllScroll => {},
            CursorIcon::ResizeHorizontal => {},
            CursorIcon::ResizeNeSw => {},
            CursorIcon::ResizeNwSe => {},
            CursorIcon::ResizeVertical => {},
            CursorIcon::ResizeEast => {},
            CursorIcon::ResizeSouthEast => {},
            CursorIcon::ResizeSouth => {},
            CursorIcon::ResizeSouthWest => {},
            CursorIcon::ResizeWest => {},
            CursorIcon::ResizeNorthWest => {},
            CursorIcon::ResizeNorth => {},
            CursorIcon::ResizeNorthEast => {},
            CursorIcon::ResizeColumn => {},
            CursorIcon::ResizeRow => {},
            CursorIcon::ZoomIn => {},
            CursorIcon::ZoomOut => {},
        }
    }
    assert forall|a: CursorIcon, b: CursorIcon|
        x11_cursor_name(a) == x11_cursor_name(b) implies a == b by {
        assert(cursor_for_name(x11_cursor_name(a)) == Some(a));
        assert(cursor_for_name(x11_cursor_name(b)) == Some(b));
    }
}

/// The X11 cursor-theme names of the shapes, as found in the cursor themes
/// under `/usr/share/icons/<theme>/cursors`.
pub proof fn lemma_cursor_theme_names()
    ensures
        x11_cursor_name(CursorIcon::Default) == "left_ptr"@,
        x11_cursor_name(CursorIcon::Hidden) == "none"@,
        x11_cursor_name(CursorIcon::ContextMenu) == "context-menu"@,
        x11_cursor_name(CursorIcon::Help) == "help"@,
        x11_cursor_name(CursorIcon::PointingHand) == "pointer"@,
        x11_cursor_name(CursorIcon::Progress) == "progress"@,
        x11_cursor_name(CursorIcon::Wait) == "wait"@,
        x11_cursor_name(CursorIcon::Cell) == "cell"@,
        x11_cursor_name(CursorIcon::Crosshair) == "crosshair"@,
        x11_cursor_name(CursorIcon::Text) == "text"@,
        x11_cursor_name(CursorIcon::VerticalText) == "vertical-text"@,
        x11_cursor_name(CursorIcon::Alias) == "alias"@,
        x11_cursor_name(CursorIcon::Copy) == "copy"@,
        x11_cursor_name(CursorIcon::Move) == "move"@,
        x11_cursor_name(CursorIcon::NoDrop) == "no-drop"@,
        x11_cursor_name(CursorIcon::NotAllowed) == "not-allowed"@,
        x11_cursor_name(CursorIcon::Grab) == "grab"@,
        x11_cursor_name(CursorIcon::Grabbing) == "grabbing"@,
        x11_cursor_name(CursorIcon::AllScroll) == "all-scroll"@,
        x11_cursor_name(CursorIcon::ResizeHorizontal) == "resize-horiz"@,
        x11_cursor_name(CursorIcon::ResizeNeSw) == "nesw-resize"@,
        x11_cursor_name(CursorIcon::ResizeNwSe) == "nwse-resize"@,
        x11_cursor_name(CursorIcon::ResizeVertical) == "vertical-resize"@,
        x11_cursor_name(CursorIcon::ResizeEast) == "e-resize"@,
        x11_cursor_name(CursorIcon::ResizeSouthEast) == "se-resize"@,
        x11_cursor_name(CursorIcon::ResizeSouth) == "s-resize"@,
        x11_cursor_name(CursorIcon::ResizeSouthWest) == "sw-resize"@,
        x11_cursor_name(CursorIcon::ResizeWest) == "w-resize"@,
        x11_cursor_name(CursorIcon::ResizeNorthWest) == "nw-resize"@,
        x11_cursor_name(CursorIcon::ResizeNorth) == "n-resize"@,
        x11_cursor_name(CursorIcon::ResizeNorthEast) == "ne-resize"@,
        x11_cursor_name(CursorIcon::ResizeColumn) == "col-resize"@,
        x11_cursor_name(CursorIcon::ResizeRow) == "row-resize"@,
        x11_cursor_name(CursorIcon::ZoomIn) == "zoom-in"@,
        x11_cursor_name(CursorIcon::ZoomOut) == "zoom-out"@,
{
}

} // verus!
