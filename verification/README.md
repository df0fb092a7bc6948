# tray_ocr

A menu-bar utility that captures an area of the screen, recognizes its text
with the system's OCR engine, copies the text to the clipboard and keeps a
history of recent scans.

- `src/` is the verified library (Verus): the hotkey settings and their
  parsing, the history rules, the decisions taken on menu, tray and hotkey
  events, the search for check items in a menu tree, the assembly of
  recognized text and the reactions to a capture. Each public function states
  its result in its contract; the properties that span functions are proved
  as public proof functions (`lemma_*`).
- `app/` is the desktop application around it (Tauri): windows, menus, the
  global hotkey, files, clipboard, notifications and the system recognizer.
- `tests/` runs the library on concrete values.
