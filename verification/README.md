# gitpane

A terminal program that shows many git repositories at once: their state, their
changes and their commit graphs.

`src/` is the library. It holds what the program knows and how it answers to what
happens, as Verus contracts and proofs:

- `text`, `names`, `paths`, `order`, `base64`: texts, ordered sets of names, paths,
  stable sorting, base64.
- `screen`: areas, list selections, keys, mouse, colours.
- `model`, `status`, `config`, `action`: commits and their graph rows, the state of
  a repository, the configuration, the actions.
- `scanner`: which of the directories that were seen are repositories.
- `repo_list`: the list of repositories with worktrees and stashes under them.
- `git_graph`: the graph panel: rows, collapsed branches, search, commit details,
  builds in the background, keys and mouse, what is drawn.
- `app`: the program as a whole. `handle_action` and `handle_event` take what
  happens and the time, change the state, and give back a list of effects.

Every state is a mathematical view (`AppView`, `GraphView`, `RepoListView`), every
step a spec function on it, and the functions whose names begin with `law_` state
what holds of all of them.

`app/` is ordinary Rust around the library. It paints the pictures, walks the disk,
runs git, and performs the effects.
