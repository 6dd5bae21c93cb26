use vstd::prelude::*;

verus! {

/// How the editor's toolbar shows on desktop.
#[derive(Clone, Copy, Debug, PartialEq, Eq, Structural)]
pub enum ToolBarVisibility {
    Minimized,
    Maximized,
    Disabled,
}

/// The icon of a toolbar button.
#[derive(Clone, Copy, Debug, PartialEq, Eq, Structural)]
pub enum Icon {
    VisibilityOn,
    VisibilityOff,
    Header1,
    Bold,
    Italic,
    Code,
    Strikethrough,
    NumberList,
    BulletList,
    TodoList,
    Link,
    KeyboardHide,
    Indent,
    Deindent,
    Undo,
    Redo,
}

/// What pressing a toolbar button does.
#[derive(Clone, Copy, Debug, PartialEq, Eq, Structural)]
pub enum ToolbarAction {
    /// Maximize the toolbar.
    ShowToolbar,
    /// Minimize the toolbar.
    HideToolbar,
    /// Cycle the heading level of the current line.
    ToggleHeading,
    Bold,
    Italic,
    InlineCode,
    Strikethrough,
    NumberedList,
    BulletedList,
    TodoList,
    Link,
    /// Hide the on-screen keyboard.
    HideKeyboard,
    Indent,
    Deindent,
    Undo,
    Redo,
}

/// An inline markdown style.
#[derive(Clone, Copy, Debug, PartialEq, Eq, Structural)]
pub enum InlineStyle {
    Bold,
    Italic,
    Code,
    Strikethrough,
    /// An inline link with empty destination and title.
    InlineLink,
}

/// A kind of markdown list item.
#[derive(Clone, Copy, Debug, PartialEq, Eq, Structural)]
pub enum ListItem {
    /// A numbered item starting at the given number.
    Numbered(usize),
    Bulleted,
    /// A to-do item, checked or not.
    Todo(bool),
}

/// An editing event the toolbar sends to the markdown editor.
#[derive(Clone, Copy, Debug, PartialEq, Eq, Structural)]
pub enum MarkdownEvent {
    /// Toggle an inline style over the selection.
    ToggleInline(InlineStyle),
    /// Toggle a list-item block style at the given indentation level.
    ToggleListItem { item: ListItem, indent: usize },
    /// Toggle a heading of the given level.
    ToggleHeading(usize),
    Indent { deindent: bool },
    Undo,
}

/// What a toolbar button does outside the toolbar itself.
#[derive(Clone, Copy, Debug, PartialEq, Eq, Structural)]
pub enum ToolbarEffect {
    Nothing,
    Markdown(MarkdownEvent),
    HideVirtualKeyboard,
}

/// A margin in points.
#[derive(Clone, Copy, Debug, PartialEq, Eq, Structural)]
pub struct Margin {
    pub left: u32,
    pub right: u32,
    pub top: u32,
    pub bottom: u32,
}

impl Margin {
    /// `x` on the left and right, `y` on the top and bottom.
    pub fn symmetric(x: u32, y: u32) -> (m: Margin)
        ensures
            m == (Margin { left: x, right: x, top: y, bottom: y }),
    {
        Margin { left: x, right: x, top: y, bottom: y }
    }
}

/// A toolbar button: its icon, its id, and what pressing it does.
#[derive(Clone, Debug)]
pub struct ToolbarButton {
    icon: Icon,
    id: String,
    callback: ToolbarAction,
}

/// A toolbar button as values.
pub struct ButtonView {
    pub icon: Icon,
    pub id: Seq<char>,
    pub callback: ToolbarAction,
}

impl View for ToolbarButton {
    type V = ButtonView;

    closed spec fn view(&self) -> ButtonView {
        ButtonView { icon: self.icon, id: self.id@, callback: self.callback }
    }
}

pub open spec fn button_view(icon: Icon, id: Seq<char>, callback: ToolbarAction) -> ButtonView {
    ButtonView { icon, id, callback }
}

impl ToolbarButton {
    fn new(icon: Icon, id: &str, callback: ToolbarAction) -> (b: ToolbarButton)
        ensures
            b@ == button_view(icon, id@, callback),
    {
        ToolbarButton { icon, id: String::from_str(id), callback }
    }

    pub fn icon(&self) -> (icon: Icon)
        ensures
            icon == self@.icon,
    {
        self.icon
    }

    pub fn id(&self) -> (id: &String)
        ensures
            id@ == self@.id,
    {
        &self.id
    }

    pub fn callback(&self) -> (callback: ToolbarAction)
        ensures
            callback == self@.callback,
    {
        self.callback
    }
}

/// An item of the mobile toolbar.
#[derive(Clone, Debug)]
pub enum Component {
    Button(ToolbarButton),
    Separator(Margin),
}

/// A mobile toolbar item as values.
pub enum ComponentView {
    Button(ButtonView),
    Separator(Margin),
}

impl View for Component {
    type V = ComponentView;

    open spec fn view(&self) -> ComponentView {
        match self {
            Component::Button(b) => ComponentView::Button(b@),
            Component::Separator(m) => ComponentView::Separator(*m),
        }
    }
}

pub open spec fn buttons_view(buttons: Seq<ToolbarButton>) -> Seq<ButtonView> {
    buttons.map_values(|b: ToolbarButton| b@)
}

pub open spec fn components_view(components: Seq<Component>) -> Seq<ComponentView> {
    components.map_values(|c: Component| c@)
}

/// The desktop toolbar's buttons for a visibility: only "show" when
/// minimized, the formatting buttons and "hide" when maximized, none when
/// disabled.
pub open spec fn expected_buttons(visibility: ToolBarVisibility) -> Seq<ButtonView> {
    match visibility {
        ToolBarVisibility::Minimized => seq![
            button_view(Icon::VisibilityOn, "visibility_on"@, ToolbarAction::ShowToolbar),
        ],
        ToolBarVisibility::Maximized => seq![
            button_view(Icon::Header1, "header"@, ToolbarAction::ToggleHeading),
            button_view(Icon::Bold, "bold"@, ToolbarAction::Bold),
            button_view(Icon::Italic, "italic"@, ToolbarAction::Italic),
            button_view(Icon::Code, "in_line_code"@, ToolbarAction::InlineCode),
            button_view(Icon::Strikethrough, "strikethrough"@, ToolbarAction::Strikethrough),
            button_view(Icon::NumberList, "number_list"@, ToolbarAction::NumberedList),
            button_view(Icon::BulletList, "bullet_list"@, ToolbarAction::BulletedList),
            button_view(Icon::TodoList, "todo_list"@, ToolbarAction::TodoList),
            button_view(Icon::Link, "link"@, ToolbarAction::Link),
            button_view(Icon::VisibilityOff, "visibility_off"@, ToolbarAction::HideToolbar),
        ],
        ToolBarVisibility::Disabled => seq![],
    }
}

/// The items shown in front of the mobile toolbar while the on-screen
/// keyboard shows.
pub open spec fn expected_hide_keyboard_components() -> Seq<ComponentView> {
    seq![
        ComponentView::Button(
            button_view(Icon::KeyboardHide, "keyboard_hide"@, ToolbarAction::HideKeyboard),
        ),
        ComponentView::Separator(Margin { left: 10, right: 10, top: 0, bottom: 0 }),
    ]
}

/// The items of the mobile toolbar.
pub open spec fn expected_mobile_components() -> Seq<ComponentView> {
    let sep = ComponentView::Separator(Margin { left: 10, right: 10, top: 0, bottom: 0 });
    seq![
        ComponentView::Button(button_view(Icon::Header1, "header"@, ToolbarAction::ToggleHeading)),
        ComponentView::Button(button_view(Icon::Bold, "bold"@, ToolbarAction::Bold)),
        ComponentView::Button(button_view(Icon::Italic, "italic"@, ToolbarAction::Italic)),
        ComponentView::Button(button_view(Icon::Code, "in_line_code"@, ToolbarAction::InlineCode)),
        ComponentView::Button(
            button_view(Icon::Strikethrough, "strikethrough"@, ToolbarAction::Strikethrough),
        ),
        sep,
        ComponentView::Button(
            button_view(Icon::NumberList, "number_list"@, ToolbarAction::NumberedList),
        ),
        ComponentView::Button(
            button_view(Icon::BulletList, "bullet_list"@, ToolbarAction::BulletedList),
        ),
        ComponentView::Button(button_view(Icon::TodoList, "todo_list"@, ToolbarAction::TodoList)),
        sep,
        ComponentView::Button(button_view(Icon::Link, "link"@, ToolbarAction::Link)),
        sep,
        ComponentView::Button(button_view(Icon::Indent, "indent"@, ToolbarAction::Indent)),
        ComponentView::Button(button_view(Icon::Deindent, "deindent"@, ToolbarAction::Deindent)),
        ComponentView::Button(button_view(Icon::Undo, "undo"@, ToolbarAction::Undo)),
        ComponentView::Button(button_view(Icon::Redo, "redo"@, ToolbarAction::Redo)),
    ]
}

/// The desktop toolbar's buttons for a visibility.
pub fn get_buttons(visibility: &ToolBarVisibility) -> (buttons: Vec<ToolbarButton>)
    ensures
        buttons_view(buttons@) == expected_buttons(*visibility),
{
    match visibility {
        ToolBarVisibility::Minimized => {
            let buttons = vec![
                ToolbarButton::new(Icon::VisibilityOn, "visibility_on", ToolbarAction::ShowToolbar),
            ];
            assert(buttons_view(buttons@) =~= expected_buttons(*visibility));
            buttons
        },
        ToolBarVisibility::Maximized => {
            let buttons = vec![
                ToolbarButton::new(Icon::Header1, "header", ToolbarAction::ToggleHeading),
                ToolbarButton::new(Icon::Bold, "bold", ToolbarAction::Bold),
                ToolbarButton::new(Icon::Italic, "italic", ToolbarAction::Italic),
                ToolbarButton::new(Icon::Code, "in_line_code", ToolbarAction::InlineCode),
                ToolbarButton::new(Icon::Strikethrough, "strikethrough", ToolbarAction::Strikethrough),
                ToolbarButton::new(Icon::NumberList, "number_list", ToolbarAction::NumberedList),
                ToolbarButton::new(Icon::BulletList, "bullet_list", ToolbarAction::BulletedList),
                ToolbarButton::new(Icon::TodoList, "todo_list", ToolbarAction::TodoList),
                ToolbarButton::new(Icon::Link, "link", ToolbarAction::Link),
                ToolbarButton::new(Icon::VisibilityOff, "visibility_off", ToolbarAction::HideToolbar),
            ];
            assert(buttons_view(buttons@) =~= expected_buttons(*visibility));
            buttons
        },
        ToolBarVisibility::Disabled => {
            let buttons: Vec<ToolbarButton> = Vec::new();
            assert(buttons_view(buttons@) =~= expected_buttons(*visibility));
            buttons
        },
    }
}

/// The items shown in front of the mobile toolbar while the on-screen
/// keyboard shows.
pub fn get_hide_keyboard_components() -> (components: Vec<Component>)
    ensures
        components_view(components@) == expected_hide_keyboard_components(),
{
    let components = vec![
        Component::Button(
            ToolbarButton::new(Icon::KeyboardHide, "keyboard_hide", ToolbarAction::HideKeyboard),
        ),
        Component::Separator(Margin::symmetric(10, 0)),
    ];
    assert(components_view(components@) =~= expected_hide_keyboard_components());
    components
}

/// The items of the mobile toolbar.
pub fn get_mobile_components() -> (components: Vec<Component>)
    ensures
        components_view(components@) == expected_mobile_components(),
{
    let components = vec![
        Component::Button(ToolbarButton::new(Icon::Header1, "header", ToolbarAction::ToggleHeading)),
        Component::Button(ToolbarButton::new(Icon::Bold, "bold", ToolbarAction::Bold)),
        Component::Button(ToolbarButton::new(Icon::Italic, "italic", ToolbarAction::Italic)),
        Component::Button(ToolbarButton::new(Icon::Code, "in_line_code", ToolbarAction::InlineCode)),
        Component::Button(
            ToolbarButton::new(Icon::Strikethrough, "strikethrough", ToolbarAction::Strikethrough),
        ),
        Component::Separator(Margin::symmetric(10, 0)),
        Component::Button(
            ToolbarButton::new(Icon::NumberList, "number_list", ToolbarAction::NumberedList),
        ),
        Component::Button(
            ToolbarButton::new(Icon::BulletList, "bullet_list", ToolbarAction::BulletedList),
        ),
        Component::Button(ToolbarButton::new(Icon::TodoList, "todo_list", ToolbarAction::TodoList)),
        Component::Separator(Margin::symmetric(10, 0)),
        Component::Button(ToolbarButton::new(Icon::Link, "link", ToolbarAction::Link)),
        Component::Separator(Margin::symmetric(10, 0)),
        Component::Button(ToolbarButton::new(Icon::Indent, "indent", ToolbarAction::Indent)),
        Component::Button(ToolbarButton::new(Icon::Deindent, "deindent", ToolbarAction::Deindent)),
        Component::Button(ToolbarButton::new(Icon::Undo, "undo", ToolbarAction::Undo)),
        Component::Button(ToolbarButton::new(Icon::Redo, "redo", ToolbarAction::Redo)),
    ];
    assert(components_view(components@) =~= expected_mobile_components());
    components
}

fn copy_component(c: &Component) -> (copy: Component)
    ensures
        copy@ == c@,
{
    match c {
        Component::Button(b) => Component::Button(
            ToolbarButton { icon: b.icon, id: b.id.clone(), callback: b.callback },
        ),
        Component::Separator(m) => Component::Separator(*m),
    }
}

/// `items` with `more` appended.
fn append_components(items: &mut Vec<Component>, more: &Vec<Component>)
    ensures
        components_view(final(items)@) == components_view(old(items)@) + components_view(more@),
{
    let ghost start = items@;
    let mut i: usize = 0;
    while i < more.len()
        invariant
            i <= more.len(),
            components_view(items@) == components_view(start) + components_view(more@.take(i as int)),
        decreases more.len() - i,
    {
        let ghost before = items@;
        let c = copy_component(&more[i]);
        items.push(c);
        proof {
            assert(more@.take(i + 1) =~= more@.take(i as int).push(more@[i as int]));
            assert(components_view(items@) =~= components_view(before).push(more@[i as int]@));
            assert(components_view(more@.take(i + 1)) =~= components_view(more@.take(i as int)).push(
                more@[i as int]@,
            ));
            assert(components_view(items@) =~= components_view(start) + components_view(
                more@.take(i + 1),
            ));
        }
        i = i + 1;
    }
    assert(more@.take(more.len() as int) =~= more@);
}

/// The markdown editor's toolbar, apart from its on-screen geometry.
#[derive(Clone, Debug)]
pub struct ToolBar {
    pub has_focus: bool,
    buttons: Vec<ToolbarButton>,
    mobile_components: Vec<Component>,
    hide_keyboard_components: Vec<Component>,
    header_click_count: usize,
    pub visibility: ToolBarVisibility,
}

/// The toolbar as values.
pub struct ToolBarView {
    pub has_focus: bool,
    pub buttons: Seq<ButtonView>,
    pub mobile_components: Seq<ComponentView>,
    pub hide_keyboard_components: Seq<ComponentView>,
    pub header_click_count: nat,
    pub visibility: ToolBarVisibility,
}

impl View for ToolBar {
    type V = ToolBarView;

    closed spec fn view(&self) -> ToolBarView {
        ToolBarView {
            has_focus: self.has_focus,
            buttons: buttons_view(self.buttons@),
            mobile_components: components_view(self.mobile_components@),
            hide_keyboard_components: components_view(self.hide_keyboard_components@),
            header_click_count: self.header_click_count as nat,
            visibility: self.visibility,
        }
    }
}

/// The heading level after `count`: h1 to h6, then back to h1.
pub open spec fn next_heading(count: nat) -> nat {
    if count > 5 {
        1
    } else {
        count + 1
    }
}

/// The toolbar after pressing a button with `callback`.
pub open spec fn toolbar_after(t: ToolBarView, callback: ToolbarAction) -> ToolBarView {
    match callback {
        ToolbarAction::ShowToolbar => ToolBarView {
            visibility: ToolBarVisibility::Maximized,
            buttons: expected_buttons(ToolBarVisibility::Maximized),
            ..t
        },
        ToolbarAction::HideToolbar => ToolBarView {
            visibility: ToolBarVisibility::Minimized,
            buttons: expected_buttons(ToolBarVisibility::Minimized),
            ..t
        },
        ToolbarAction::ToggleHeading => ToolBarView {
            header_click_count: next_heading(t.header_click_count),
            ..t
        },
        _ => t,
    }
}

/// What pressing a button with `callback` asks of the editor.
pub open spec fn effect_of(t: ToolBarView, callback: ToolbarAction) -> ToolbarEffect {
    match callback {
        ToolbarAction::ShowToolbar => ToolbarEffect::Nothing,
        ToolbarAction::HideToolbar => ToolbarEffect::Nothing,
        ToolbarAction::ToggleHeading => ToolbarEffect::Markdown(
            MarkdownEvent::ToggleHeading(next_heading(t.header_click_count) as usize),
        ),
        ToolbarAction::Bold => ToolbarEffect::Markdown(MarkdownEvent::ToggleInline(InlineStyle::Bold)),
        ToolbarAction::Italic => ToolbarEffect::Markdown(
            MarkdownEvent::ToggleInline(InlineStyle::Italic),
        ),
        ToolbarAction::InlineCode => ToolbarEffect::Markdown(
            MarkdownEvent::ToggleInline(InlineStyle::Code),
        ),
        ToolbarAction::Strikethrough => ToolbarEffect::Markdown(
            MarkdownEvent::ToggleInline(InlineStyle::Strikethrough),
        ),
        ToolbarAction::NumberedList => ToolbarEffect::Markdown(
            MarkdownEvent::ToggleListItem { item: ListItem::Numbered(1), indent: 0 },
        ),
        ToolbarAction::BulletedList => ToolbarEffect::Markdown(
            MarkdownEvent::ToggleListItem { item: ListItem::Bulleted, indent: 0 },
        ),
        ToolbarAction::TodoList => ToolbarEffect::Markdown(
            MarkdownEvent::ToggleListItem { item: ListItem::Todo(false), indent: 0 },
        ),
        ToolbarAction::Link => ToolbarEffect::Markdown(
            MarkdownEvent::ToggleInline(InlineStyle::InlineLink),
        ),
        ToolbarAction::HideKeyboard => ToolbarEffect::HideVirtualKeyboard,
        ToolbarAction::Indent => ToolbarEffect::Markdown(MarkdownEvent::Indent { deindent: false }),
        ToolbarAction::Deindent => ToolbarEffect::Markdown(MarkdownEvent::Indent { deindent: true }),
        ToolbarAction::Undo => ToolbarEffect::Markdown(MarkdownEvent::Undo),
        // the redo button sends the same event as undo
        ToolbarAction::Redo => ToolbarEffect::Markdown(MarkdownEvent::Undo),
    }
}

/// Increments the heading level from h1 to h6 and then wraps back to h1.
pub fn toggle_heading_style(t: &mut ToolBar) -> (event: MarkdownEvent)
    ensures
        final(t)@ == toolbar_after(old(t)@, ToolbarAction::ToggleHeading),
        ToolbarEffect::Markdown(event) == effect_of(old(t)@, ToolbarAction::ToggleHeading),
{
    if t.header_click_count > 5 {
        t.header_click_count = 1;
    } else {
        t.header_click_count = t.header_click_count + 1;
    }
    MarkdownEvent::ToggleHeading(t.header_click_count)
}

impl ToolBar {
    /// A toolbar with the buttons of `visibility`, at heading level h1.
    pub fn new(visibility: &ToolBarVisibility) -> (t: ToolBar)
        ensures
            t@.visibility == *visibility,
            t@.buttons == expected_buttons(*visibility),
            t@.mobile_components == expected_mobile_components(),
            t@.hide_keyboard_components == expected_hide_keyboard_components(),
            t@.header_click_count == 1,
            !t@.has_focus,
    {
        ToolBar {
            buttons: get_buttons(visibility),
            mobile_components: get_mobile_components(),
            hide_keyboard_components: get_hide_keyboard_components(),
            header_click_count: 1,
            has_focus: false,
            visibility: *visibility,
        }
    }

    /// The desktop buttons.
    pub fn buttons(&self) -> (buttons: &Vec<ToolbarButton>)
        ensures
            buttons_view(buttons@) == self@.buttons,
    {
        &self.buttons
    }

    /// The mobile toolbar's items.
    pub fn mobile_components(&self) -> (components: &Vec<Component>)
        ensures
            components_view(components@) == self@.mobile_components,
    {
        &self.mobile_components
    }

    /// The items shown in front of the mobile toolbar while the on-screen
    /// keyboard shows.
    pub fn hide_keyboard_components(&self) -> (components: &Vec<Component>)
        ensures
            components_view(components@) == self@.hide_keyboard_components,
    {
        &self.hide_keyboard_components
    }

    /// The items the mobile toolbar shows: the keyboard-hiding items first
    /// while the on-screen keyboard shows, then the mobile items.
    pub fn mobile_items(&self, is_virtual_keyboard_showing: bool) -> (items: Vec<Component>)
        ensures
            is_virtual_keyboard_showing ==> components_view(items@) == self@.hide_keyboard_components
                + self@.mobile_components,
            !is_virtual_keyboard_showing ==> components_view(items@) == self@.mobile_components,
    {
        let mut items: Vec<Component> = Vec::new();
        assert(components_view(items@) =~= Seq::<ComponentView>::empty());
        if is_virtual_keyboard_showing {
            append_components(&mut items, &self.hide_keyboard_components);
        }
        append_components(&mut items, &self.mobile_components);
        proof {
            assert(Seq::<ComponentView>::empty() + self@.mobile_components =~= self@.mobile_components);
            assert(Seq::<ComponentView>::empty() + self@.hide_keyboard_components
                =~= self@.hide_keyboard_components);
        }
        items
    }

    /// The heading level the header button toggles next is one above this.
    pub fn header_click_count(&self) -> (count: usize)
        ensures
            count == self@.header_click_count,
    {
        self.header_click_count
    }

    /// Presses a button with `callback`: updates the toolbar and says what the
    /// editor is to do.
    pub fn invoke(&mut self, callback: ToolbarAction) -> (effect: ToolbarEffect)
        ensures
            final(self)@ == toolbar_after(old(self)@, callback),
            effect == effect_of(old(self)@, callback),
    {
        match callback {
            ToolbarAction::ShowToolbar => {
                self.visibility = ToolBarVisibility::Maximized;
                self.buttons = get_buttons(&self.visibility);
                ToolbarEffect::Nothing
            },
            ToolbarAction::HideToolbar => {
                self.visibility = ToolBarVisibility::Minimized;
                self.buttons = get_buttons(&self.visibility);
                ToolbarEffect::Nothing
            },
            ToolbarAction::ToggleHeading => ToolbarEffect::Markdown(toggle_heading_style(self)),
            ToolbarAction::Bold => ToolbarEffect::Markdown(MarkdownEvent::ToggleInline(InlineStyle::Bold)),
            ToolbarAction::Italic => ToolbarEffect::Markdown(
                MarkdownEvent::ToggleInline(InlineStyle::Italic),
            ),
            ToolbarAction::InlineCode => ToolbarEffect::Markdown(
                MarkdownEvent::ToggleInline(InlineStyle::Code),
            ),
            ToolbarAction::Strikethrough => ToolbarEffect::Markdown(
                MarkdownEvent::ToggleInline(InlineStyle::Strikethrough),
            ),
            ToolbarAction::NumberedList => ToolbarEffect::Markdown(
                MarkdownEvent::ToggleListItem { item: ListItem::Numbered(1), indent: 0 },
            ),
            ToolbarAction::BulletedList => ToolbarEffect::Markdown(
                MarkdownEvent::ToggleListItem { item: ListItem::Bulleted, indent: 0 },
            ),
            ToolbarAction::TodoList => ToolbarEffect::Markdown(
                MarkdownEvent::ToggleListItem { item: ListItem::Todo(false), indent: 0 },
            ),
            ToolbarAction::Link => ToolbarEffect::Markdown(
                MarkdownEvent::ToggleInline(InlineStyle::InlineLink),
            ),
            ToolbarAction::HideKeyboard => ToolbarEffect::HideVirtualKeyboard,
            ToolbarAction::Indent => ToolbarEffect::Markdown(MarkdownEvent::Indent { deindent: false }),
            ToolbarAction::Deindent => ToolbarEffect::Markdown(MarkdownEvent::Indent { deindent: true }),
            ToolbarAction::Undo => ToolbarEffect::Markdown(MarkdownEvent::Undo),
            ToolbarAction::Redo => ToolbarEffect::Markdown(MarkdownEvent::Undo),
        }
    }

    /// The pointer hovers the `index`-th desktop button: any button but the
    /// header button resets the heading level to h1.
    pub fn button_hovered(&mut self, index: usize)
        requires
            index < old(self)@.buttons.len(),
        ensures
            old(self)@.buttons[index as int].id != "header"@ ==> final(self)@ == (ToolBarView {
                header_click_count: 1,
                ..old(self)@
            }),
            old(self)@.buttons[index as int].id == "header"@ ==> final(self)@ == old(self)@,
    {
        let header = String::from_str("header");
        if !(self.buttons[index].id == header) {
            self.header_click_count = 1;
        }
    }

    /// The width of the desktop toolbar: each button is 44 points wide (an
    /// icon of 34 and spacing of 10), plus the horizontal margins.
    pub fn width(&self, margin_width: usize) -> (width: usize)
        requires
            44 * self@.buttons.len() + margin_width <= usize::MAX,
        ensures
            width == 44 * self@.buttons.len() + margin_width,
    {
        let icon_width: usize = 44;
        icon_width * self.buttons.len() + margin_width
    }
}

/// Six presses of the header button cycle through h1 to h6 and come back to
/// the level they started at; the level stays between h1 and h6.
pub proof fn lemma_heading_cycle(count: nat)
    requires
        1 <= count <= 6,
    ensures
        1 <= next_heading(count) <= 6,
        next_heading(next_heading(next_heading(next_heading(next_heading(next_heading(count))))))
            == count,
        count < 6 ==> next_heading(count) == count + 1,
        count == 6 ==> next_heading(count) == 1,
        ({
            let l1 = next_heading(count);
            let l2 = next_heading(l1);
            let l3 = next_heading(l2);
            let l4 = next_heading(l3);
            let l5 = next_heading(l4);
            let l6 = next_heading(l5);
            let levels = seq![l1, l2, l3, l4, l5, l6];
            &&& forall|i: int, j: int| 0 <= i < j < 6 ==> levels[i] != levels[j]
            &&& forall|n: nat| 1 <= n <= 6 ==> levels.contains(n)
        }),
{
    let l1 = next_heading(count);
    let l2 = next_heading(l1);
    let l3 = next_heading(l2);
    let l4 = next_heading(l3);
    let l5 = next_heading(l4);
    let l6 = next_heading(l5);
    let levels = seq![l1, l2, l3, l4, l5, l6];
    assert forall|n: nat| 1 <= n <= 6 implies levels.contains(n) by {
        let k: int = if n > count { n - count - 1 } else { n + 6 - count - 1 };
        assert(levels[k] == n);
    }
}

/// Hiding the maximized toolbar and showing it again gives back the same
/// toolbar; the minimized toolbar's one button is the one that shows it.
pub proof fn lemma_hide_then_show(t: ToolBarView)
    requires
        t.visibility == ToolBarVisibility::Maximized,
        t.buttons == expected_buttons(ToolBarVisibility::Maximized),
    ensures
        toolbar_after(t, ToolbarAction::HideToolbar).buttons.len() == 1,
        toolbar_after(t, ToolbarAction::HideToolbar).buttons[0].callback
            == ToolbarAction::ShowToolbar,
        toolbar_after(toolbar_after(t, ToolbarAction::HideToolbar), ToolbarAction::ShowToolbar)
            == t,
{
}

/// Showing the minimized toolbar and hiding it again gives back the same
/// toolbar; the maximized toolbar's last button is the one that hides it.
pub proof fn lemma_show_then_hide(t: ToolBarView)
    requires
        t.visibility == ToolBarVisibility::Minimized,
        t.buttons == expected_buttons(ToolBarVisibility::Minimized),
    ensures
        toolbar_after(t, ToolbarAction::ShowToolbar).buttons.len() == 10,
        toolbar_after(t, ToolbarAction::ShowToolbar).buttons[9].callback
            == ToolbarAction::HideToolbar,
        toolbar_after(toolbar_after(t, ToolbarAction::ShowToolbar), ToolbarAction::HideToolbar)
            == t,
{
}

/// The mobile toolbar offers the maximized desktop toolbar's formatting
/// buttons, in the same order and alike in icon, id and action (hence in
/// effect), with separators between groups; it adds indent, deindent, undo
/// and redo, and has no visibility button.
pub proof fn lemma_mobile_buttons_match_desktop()
    ensures
        ({
            let mobile = expected_mobile_components();
            let desktop = expected_buttons(ToolBarVisibility::Maximized);
            let at = seq![0int, 1, 2, 3, 4, 6, 7, 8, 10];
            &&& mobile.len() == 16
            &&& forall|k: int| 0 <= k < 9 ==> mobile[#[trigger] at[k]] == ComponentView::Button(desktop[k])
            &&& desktop[9].callback == ToolbarAction::HideToolbar
            &&& mobile[5] is Separator && mobile[9] is Separator && mobile[11] is Separator
            &&& mobile[12] == ComponentView::Button(
                button_view(Icon::Indent, "indent"@, ToolbarAction::Indent),
            )
            &&& mobile[13] == ComponentView::Button(
                button_view(Icon::Deindent, "deindent"@, ToolbarAction::Deindent),
            )
            &&& mobile[14] == ComponentView::Button(
                button_view(Icon::Undo, "undo"@, ToolbarAction::Undo),
            )
            &&& mobile[15] == ComponentView::Button(
                button_view(Icon::Redo, "redo"@, ToolbarAction::Redo),
            )
        }),
{
    let mobile = expected_mobile_components();
    let desktop = expected_buttons(ToolBarVisibility::Maximized);
    let at = seq![0int, 1, 2, 3, 4, 6, 7, 8, 10];
    assert forall|k: int| 0 <= k < 9 implies mobile[#[trigger] at[k]] == ComponentView::Button(
        desktop[k],
    ) by {
        if k == 0 {} else if k == 1 {} else if k == 2 {} else if k == 3 {} else if k == 4 {}
        else if k == 5 {} else if k == 6 {} else if k == 7 {} else {}
    }
}

/// Each formatting button sends the event of its own name, whatever the
/// toolbar's state: the inline styles toggle that style over the selection,
/// the list buttons toggle that kind of list item at the top level, the
/// indent buttons indent or deindent, undo undoes; the visibility buttons and
/// the keyboard button send no markdown event.
pub proof fn lemma_buttons_send_their_events(t: ToolBarView)
    ensures
        effect_of(t, ToolbarAction::Bold) == ToolbarEffect::Markdown(
            MarkdownEvent::ToggleInline(InlineStyle::Bold),
        ),
        effect_of(t, ToolbarAction::Italic) == ToolbarEffect::Markdown(
            MarkdownEvent::ToggleInline(InlineStyle::Italic),
        ),
        effect_of(t, ToolbarAction::InlineCode) == ToolbarEffect::Markdown(
            MarkdownEvent::ToggleInline(InlineStyle::Code),
        ),
        effect_of(t, ToolbarAction::Strikethrough) == ToolbarEffect::Markdown(
            MarkdownEvent::ToggleInline(InlineStyle::Strikethrough),
        ),
        effect_of(t, ToolbarAction::Link) == ToolbarEffect::Markdown(
            MarkdownEvent::ToggleInline(InlineStyle::InlineLink),
        ),
        effect_of(t, ToolbarAction::NumberedList) == ToolbarEffect::Markdown(
            MarkdownEvent::ToggleListItem { item: ListItem::Numbered(1), indent: 0 },
        ),
        effect_of(t, ToolbarAction::BulletedList) == ToolbarEffect::Markdown(
            MarkdownEvent::ToggleListItem { item: ListItem::Bulleted, indent: 0 },
        ),
        effect_of(t, ToolbarAction::TodoList) == ToolbarEffect::Markdown(
            MarkdownEvent::ToggleListItem { item: ListItem::Todo(false), indent: 0 },
        ),
        effect_of(t, ToolbarAction::Indent) == ToolbarEffect::Markdown(
            MarkdownEvent::Indent { deindent: false },
        ),
        effect_of(t, ToolbarAction::Deindent) == ToolbarEffect::Markdown(
            MarkdownEvent::Indent { deindent: true },
        ),
        effect_of(t, ToolbarAction::Undo) == ToolbarEffect::Markdown(MarkdownEvent::Undo),
        effect_of(t, ToolbarAction::HideKeyboard) == ToolbarEffect::HideVirtualKeyboard,
        effect_of(t, ToolbarAction::ShowToolbar) == ToolbarEffect::Nothing,
        effect_of(t, ToolbarAction::HideToolbar) == ToolbarEffect::Nothing,
        1 <= t.header_click_count <= 6 ==> (effect_of(t, ToolbarAction::ToggleHeading)
            matches ToolbarEffect::Markdown(MarkdownEvent::ToggleHeading(level)) && level
            == toolbar_after(t, ToolbarAction::ToggleHeading).header_click_count && 1 <= level <= 6),
{
}

/// Two different buttons other than redo (which sends undo, like the undo
/// button) and the two visibility buttons (which send nothing) send different
/// events; no button but the visibility ones changes the toolbar's buttons or
/// visibility, and only the header button changes the heading level.
pub proof fn lemma_distinct_buttons_distinct_events(t: ToolBarView, a: ToolbarAction, b: ToolbarAction)
    requires
        a != b,
        a != ToolbarAction::Redo && b != ToolbarAction::Redo,
        !(a == ToolbarAction::ShowToolbar && b == ToolbarAction::HideToolbar),
        !(a == ToolbarAction::HideToolbar && b == ToolbarAction::ShowToolbar),
    ensures
        effect_of(t, a) != effect_of(t, b),
        !(a == ToolbarAction::ShowToolbar || a == ToolbarAction::HideToolbar) ==> toolbar_after(t, a).buttons
            == t.buttons && toolbar_after(t, a).visibility == t.visibility,
        a != ToolbarAction::ToggleHeading ==> toolbar_after(t, a).header_click_count
            == t.header_click_count,
        effect_of(t, ToolbarAction::Redo) == effect_of(t, ToolbarAction::Undo),
{
}

/// Whether a button's icon and id name what it does.
pub open spec fn button_named_for_action(b: ButtonView) -> bool {
    match b.callback {
        ToolbarAction::ShowToolbar => b.icon == Icon::VisibilityOn && b.id == "visibility_on"@,
        ToolbarAction::HideToolbar => b.icon == Icon::VisibilityOff && b.id == "visibility_off"@,
        ToolbarAction::ToggleHeading => b.icon == Icon::Header1 && b.id == "header"@,
        ToolbarAction::Bold => b.icon == Icon::Bold && b.id == "bold"@,
        ToolbarAction::Italic => b.icon == Icon::Italic && b.id == "italic"@,
        ToolbarAction::InlineCode => b.icon == Icon::Code && b.id == "in_line_code"@,
        ToolbarAction::Strikethrough => b.icon == Icon::Strikethrough && b.id == "strikethrough"@,
        ToolbarAction::NumberedList => b.icon == Icon::NumberList && b.id == "number_list"@,
        ToolbarAction::BulletedList => b.icon == Icon::BulletList && b.id == "bullet_list"@,
        ToolbarAction::TodoList => b.icon == Icon::TodoList && b.id == "todo_list"@,
        ToolbarAction::Link => b.icon == Icon::Link && b.id == "link"@,
        ToolbarAction::HideKeyboard => b.icon == Icon::KeyboardHide && b.id == "keyboard_hide"@,
        ToolbarAction::Indent => b.icon == Icon::Indent && b.id == "indent"@,
        ToolbarAction::Deindent => b.icon == Icon::Deindent && b.id == "deindent"@,
        ToolbarAction::Undo => b.icon == Icon::Undo && b.id == "undo"@,
        ToolbarAction::Redo => b.icon == Icon::Redo && b.id == "redo"@,
    }
}

/// Every button of the desktop and mobile toolbars shows the icon and
/// carries the id of what it does (the bold button is "bold" with the bold
/// icon, and so on); the minimized toolbar only shows it, the maximized one
/// hides it as its last button, the disabled one has no button.
pub proof fn lemma_buttons_named_for_their_actions(v: ToolBarVisibility, i: int)
    ensures
        0 <= i < expected_buttons(v).len() ==> button_named_for_action(expected_buttons(v)[i]),
        0 <= i < expected_mobile_components().len() ==> (expected_mobile_components()[i] matches ComponentView::Button(b) ==> button_named_for_action(b)),
        0 <= i < expected_hide_keyboard_components().len() ==> (expected_hide_keyboard_components()[i] matches ComponentView::Button(b) ==> button_named_for_action(b)),
        expected_buttons(ToolBarVisibility::Minimized).len() == 1,
        expected_buttons(ToolBarVisibility::Minimized)[0].callback == ToolbarAction::ShowToolbar,
        expected_buttons(ToolBarVisibility::Maximized).len() == 10,
        expected_buttons(ToolBarVisibility::Maximized)[9].callback == ToolbarAction::HideToolbar,
        expected_buttons(ToolBarVisibility::Maximized)[0].callback == ToolbarAction::ToggleHeading,
        expected_buttons(ToolBarVisibility::Disabled).len() == 0,
{
}

/// The toolbar's buttons are always those of its visibility: pressing any
/// button keeps them so.
pub proof fn lemma_buttons_follow_visibility(t: ToolBarView, callback: ToolbarAction)
    requires
        t.buttons == expected_buttons(t.visibility),
    ensures
        toolbar_after(t, callback).buttons == expected_buttons(toolbar_after(t, callback).visibility),
{
}

} // verus!
