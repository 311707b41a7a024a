# vex

Logique du serveur VEX sous forme de fonctions vérifiées par Verus :
connexion SRP-6a, liens d'autologin, jetons SSO, transferts entre nœuds,
routage HTTP, journal d'accès, rendu et nettoyage des pages Sitec, pages
du compte, de l'éditeur, de la recherche et du tableau de bord.

- `src/` : la bibliothèque vérifiée. Chaque fonction publique a un contrat
  exact sur des fonctions `spec` ; les appels aux crates extérieures
  (hachages, base64, Ed25519, bcrypt, grands entiers, zip, gzip, dates,
  lecture JSON) passent par de petites fonctions de confiance dont le
  commentaire dit ce que leur contrat affirme. Les suites d'entrées-sorties
  (étape 2 de la connexion, génération d'un lien d'autologin, envoi d'un
  fichier par morceaux) sont écrites en machines à états : une fonction
  rend l'action suivante, l'appelant la fait et revient avec son résultat.
  Les lois (`loi_…`) sont des fonctions `proof` publiques.
- `tests/` : tests d'exécution de la bibliothèque.
- `app/` : le serveur HTTP (`tiny_http`), la lecture de la configuration et
  des fichiers ; la couche d'accès à la base n'en fait pas partie, et les
  routes qui en ont besoin répondent 503.
