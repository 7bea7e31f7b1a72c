//! Uma tabela pequena de chave de texto para valor, sem chave repetida.
//!
//! É o que o orquestrador usa para lembrar quem espera quem e a fila de cada
//! sessão. Poucas entradas, procura linear: o que importa aqui é que cada
//! chave aparece uma vez só e que o que se lê é o que se gravou.

use crate::texto::iguais;
use vstd::prelude::*;

verus! {

broadcast use vstd::string::group_string_axioms;

pub struct Tabela<T> {
    itens: Vec<(String, T)>,
}

impl<T> Tabela<T> {
    /// As chaves, na ordem em que entraram.
    pub closed spec fn chaves(&self) -> Seq<Seq<char>> {
        self.itens@.map_values(|p: (String, T)| p.0@)
    }

    /// Uma chave aparece uma vez só.
    #[verifier::type_invariant]
    closed spec fn sem_repeticao(&self) -> bool {
        self.chaves().no_duplicates()
    }

    /// O que a tabela guarda.
    pub closed spec fn mapa(&self) -> Map<Seq<char>, T> {
        Map::new(
            |k: Seq<char>| self.chaves().contains(k),
            |k: Seq<char>| self.itens@[self.chaves().index_of(k)].1,
        )
    }

    pub fn nova() -> (r: Tabela<T>)
        ensures
            r.mapa() == Map::<Seq<char>, T>::empty(),
    {
        let r = Tabela { itens: Vec::new() };
        assert(r.chaves() =~= Seq::<Seq<char>>::empty());
        assert(r.mapa() =~= Map::<Seq<char>, T>::empty());
        r
    }

    proof fn lema_valor(&self, i: int)
        requires
            self.chaves().no_duplicates(),
            0 <= i < self.itens@.len(),
        ensures
            self.mapa().contains_key(self.itens@[i].0@),
            self.mapa()[self.itens@[i].0@] == self.itens@[i].1,
    {
        let k = self.itens@[i].0@;
        assert(self.chaves()[i] == k);
        assert(self.chaves().contains(k));
        let j = self.chaves().index_of(k);
        assert(self.chaves()[j] == k);
    }

    fn posicao(&self, k: &str) -> (r: Option<usize>)
        ensures
            match r {
                Some(i) => i < self.itens@.len() && self.itens@[i as int].0@ == k@,
                None => !self.mapa().contains_key(k@),
            },
    {
        let mut i: usize = 0;
        while i < self.itens.len()
            invariant
                i <= self.itens@.len(),
                forall|j: int| 0 <= j < i ==> self.itens@[j].0@ != k@,
            decreases self.itens@.len() - i,
        {
            if iguais(self.itens[i].0.as_str(), k) {
                return Some(i);
            }
            i = i + 1;
        }
        proof {
            if self.chaves().contains(k@) {
                let j = choose|j: int| 0 <= j < self.chaves().len() && self.chaves()[j] == k@;
                assert(self.itens@[j].0@ == k@);
            }
        }
        None
    }

    /// O valor de uma chave.
    pub fn obter(&self, k: &str) -> (r: Option<&T>)
        ensures
            r is Some <==> self.mapa().contains_key(k@),
            r matches Some(v) ==> *v == self.mapa()[k@],
    {
        proof {
            use_type_invariant(self);
        }
        match self.posicao(k) {
            Some(i) => {
                proof {
                    self.lema_valor(i as int);
                }
                Some(&self.itens[i].1)
            },
            None => None,
        }
    }

    /// Tira uma chave e devolve o valor dela, se estava lá.
    pub fn remover(&mut self, k: &str) -> (r: Option<T>)
        ensures
            final(self).mapa() == old(self).mapa().remove(k@),
            r is Some <==> old(self).mapa().contains_key(k@),
            r matches Some(v) ==> v == old(self).mapa()[k@],
    {
        proof {
            use_type_invariant(&*self);
        }
        match self.posicao(k) {
            None => {
                assert(self.mapa().remove(k@) =~= self.mapa());
                None
            },
            Some(i) => {
                proof {
                    self.lema_valor(i as int);
                }
                let ghost antes = *self;
                let mut lista: Vec<(String, T)> = Vec::new();
                std::mem::swap(&mut lista, &mut self.itens);
                let (_, v) = lista.remove(i);
                proof {
                    lema_remover_chave(antes.chaves(), i as int);
                    assert(lista@.map_values(|p: (String, T)| p.0@) =~= antes.chaves().remove(
                        i as int,
                    ));
                }
                self.itens = lista;
                proof {
                    assert(self.chaves() =~= antes.chaves().remove(i as int));
                    assert forall|x: Seq<char>| #[trigger] self.mapa().contains_key(x)
                        <==> antes.mapa().remove(k@).contains_key(x) by {}
                    assert forall|x: Seq<char>| #[trigger] self.mapa().contains_key(x) implies
                        self.mapa()[x] == antes.mapa()[x] by {
                        let j = self.chaves().index_of(x);
                        assert(self.chaves()[j] == x);
                        let j2 = if j < i { j } else { j + 1 };
                        assert(self.itens@[j] == antes.itens@[j2]);
                        antes.lema_valor(j2);
                    }
                    assert(self.mapa() =~= antes.mapa().remove(k@));
                }
                Some(v)
            },
        }
    }

    /// Grava o valor de uma chave, trocando o que houvesse.
    pub fn inserir(&mut self, k: &str, v: T)
        ensures
            final(self).mapa() == old(self).mapa().insert(k@, v),
    {
        let _ = self.remover(k);
        proof {
            use_type_invariant(&*self);
        }
        let ghost antes = *self;
        proof {
            assert(!self.mapa().contains_key(k@));
            assert(!antes.chaves().contains(k@));
        }
        let mut lista: Vec<(String, T)> = Vec::new();
        std::mem::swap(&mut lista, &mut self.itens);
        lista.push((k.to_string(), v));
        proof {
            assert(lista@.map_values(|p: (String, T)| p.0@) =~= antes.chaves().push(k@));
            lema_por_chave(antes.chaves(), k@);
        }
        self.itens = lista;
        proof {
            assert(self.chaves() =~= antes.chaves().push(k@));
            let n = antes.itens@.len() as int;
            self.lema_valor(n);
            assert forall|x: Seq<char>| #[trigger] self.mapa().contains_key(x) <==> antes.mapa().insert(
                k@,
                v,
            ).contains_key(x) by {
                if self.chaves().contains(x) && x != k@ {
                    let j = choose|j: int| 0 <= j < self.chaves().len() && self.chaves()[j] == x;
                    assert(antes.chaves()[j] == x);
                }
                if antes.chaves().contains(x) {
                    let j = choose|j: int| 0 <= j < antes.chaves().len() && antes.chaves()[j] == x;
                    assert(self.chaves()[j] == x);
                }
            }
            assert forall|x: Seq<char>| #[trigger] self.mapa().contains_key(x) && x != k@ implies
                self.mapa()[x] == antes.mapa()[x] by {
                let j = self.chaves().index_of(x);
                assert(self.chaves()[j] == x);
                assert(j < n);
                assert(self.itens@[j] == antes.itens@[j]);
                antes.lema_valor(j);
            }
            assert(self.mapa() =~= antes.mapa().insert(k@, v));
        }
    }

    /// Quantas chaves.
    pub fn quantos(&self) -> (r: usize)
        ensures
            r == self.mapa().dom().len(),
    {
        proof {
            use_type_invariant(self);
            self.chaves().unique_seq_to_set();
            assert(self.mapa().dom() =~= self.chaves().to_set());
        }
        self.itens.len()
    }
}

proof fn lema_remover_chave(s: Seq<Seq<char>>, i: int)
    requires
        s.no_duplicates(),
        0 <= i < s.len(),
    ensures
        s.remove(i).no_duplicates(),
        forall|x: Seq<char>| #[trigger] s.remove(i).contains(x) <==> (s.contains(x) && x != s[i]),
{
    let r = s.remove(i);
    assert forall|a: int, b: int| 0 <= a < b < r.len() implies r[a] != r[b] by {
        let a2 = if a < i { a } else { a + 1 };
        let b2 = if b < i { b } else { b + 1 };
        assert(r[a] == s[a2] && r[b] == s[b2]);
    }
    assert forall|x: Seq<char>| #[trigger] r.contains(x) <==> (s.contains(x) && x != s[i]) by {
        if r.contains(x) {
            let k = choose|k: int| 0 <= k < r.len() && r[k] == x;
            let k2 = if k < i { k } else { k + 1 };
            assert(s[k2] == x);
        }
        if s.contains(x) && x != s[i] {
            let k = choose|k: int| 0 <= k < s.len() && s[k] == x;
            let k2 = if k < i { k } else { k - 1 };
            assert(r[k2] == x);
        }
    }
}

proof fn lema_por_chave(s: Seq<Seq<char>>, x: Seq<char>)
    requires
        s.no_duplicates(),
        !s.contains(x),
    ensures
        s.push(x).no_duplicates(),
{
    let r = s.push(x);
    assert forall|a: int, b: int| 0 <= a < b < r.len() implies r[a] != r[b] by {
        if b == s.len() {
            assert(r[a] == s[a]);
        }
    }
}

} // verus!
