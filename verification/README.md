# mmgui

A terminal front end for the MarketMaker 2 daemon, with its logic verified
in Verus.

- `src/` is the verified library:
  - `text`: lexicographic comparison of strings, character search, name lists;
  - `sorting`: sorting coin names in lexicographic order;
  - `coin_selection`: the two lists of the coin selection dialog;
  - `orderbook`: offers, their stable sort by price (asks rising, bids
    falling) and the order of the table columns;
  - `mm2_config`: the daemon's `MM2.json` record;
  - `ids`: names of the views that are looked up later;
  - `ui`: how the screen answers each message of the controller;
  - `controller`: how the controller answers messages and daemon replies;
  - `menu_v`, `active_coins`: the main menu and the rows of the coins screen.
- `app/` is the program: the two loops, the daemon client, the files, and
  the cursive views. It performs the work that the library decides on.
- `tests/` runs the library on concrete values.
