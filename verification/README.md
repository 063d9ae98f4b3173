# clipboardpro

A desktop clipboard companion. The library (`src/`) holds its logic, verified
with Verus:

- `clipboard`: detection of clipboard changes, with the program's own writes
  not reported back;
- `session`: the signed-in user cache and what is to be done to the user file;
- `auth`: the consent URL and the pages of the sign-in callback;
- `keys`: per-device key records for the system keyring (Base64 secrets);
- `tray`: the tray menu and how it answers menu choices and icon clicks.

`app/` is the program around it: the desktop shell, the local sign-in server,
clipboard, file and keyring access.
